//! A verified core for a single-operator movie acquisition queue.
//!
//! Titles discovered on an upstream streaming catalog are queued, then
//! acquired one at a time: the pipeline negotiates a viewing session,
//! waits out the provider's mandatory cooldown, resolves a playable URL
//! for the preferred quality, streams the file to disk, and commits the
//! queued-to-downloaded transition in the persistent store.
//!
//! Everything with protocol or state-machine behaviour lives here and is
//! verified; the surrounding process (HTTP, database, console) hands this
//! library plain values and carries out the actions it decides on.

pub mod movie;
pub mod pipeline;
pub mod quality;
pub mod session;
pub mod store;
pub mod text;

pub use movie::Movie;

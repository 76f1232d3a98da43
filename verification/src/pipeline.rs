//! The acquisition pipeline: a state machine that drives one queued
//! title from `Queued` to `Done`, deciding at each step what the
//! surrounding process must do next.
//!
//! The machine holds no handle to the network, the clock or the store.
//! The surrounding process performs each returned [`Action`] and reports
//! the outcome back as an [`Event`]; every decision in between — the
//! duplicate abort, the cooldown gate, quality selection, the failure
//! taxonomy — is made here.

use vstd::prelude::*;
use crate::movie::{file_name_view, Movie};
use crate::quality::{
    first_error_view, download_url_view, resolved_url, WatchResponse,
};
use crate::session::{watch_url, watch_url_view, Session};

verus! {

/// Why an acquisition attempt ended without a download. Every failure is
/// terminal for the title's current attempt and recoverable at the
/// granularity of one title; none is retried inside the pipeline.
#[derive(Debug, Clone, PartialEq, Eq)]
pub enum AcqError {
    /// Transport-level failure; the whole run may be retried later.
    TransientNetworkError,
    /// The provider explicitly declined; carries the first message it
    /// reported.
    UpstreamRejected(String),
    /// The preferred quality label is absent from the resolved map.
    QualityUnavailable,
    /// Local storage failed while streaming the file.
    DownloadIOError,
    /// A matching title is already in the downloaded store.
    DuplicateError,
}

/// Where one title stands in the pipeline.
#[derive(Debug, Clone, PartialEq, Eq)]
pub enum Stage {
    /// Awaiting processing; the duplicate guard runs here.
    Queued,
    /// The pre-watch negotiation is out.
    Negotiating,
    /// Negotiation succeeded; the provider-imposed cooldown is running.
    Cooling,
    /// The watch request is out.
    Resolving,
    /// A playable URL was selected; the file fetch is running.
    Downloading,
    /// The file is on disk; the store commit is running.
    Committing,
    /// The title was acquired and committed.
    Done,
    /// The attempt ended without a download; the queue entry stands.
    Failed(AcqError),
}

/// What the surrounding process reports back to the pipeline.
pub enum Event {
    /// Processing of the title begins.
    Begin,
    /// The duplicate guard answered: is a matching title already
    /// downloaded?
    DuplicateChecked(bool),
    /// Negotiation succeeded at the given time (in seconds) with this
    /// session.
    Negotiated(Session, u64),
    /// Negotiation failed at the transport level.
    NegotiationFailed,
    /// The cooldown wait returned; the payload is the current time in
    /// seconds.
    CooldownOver(u64),
    /// The watch endpoint answered.
    WatchReceived(WatchResponse),
    /// The watch request failed at the transport level.
    WatchFailed,
    /// The file fetch finished in full (`true`) or failed (`false`).
    DownloadFinished(bool),
    /// The store commit was applied.
    CommitApplied,
}

/// What the surrounding process must do next.
#[derive(Debug, Clone, PartialEq, Eq)]
pub enum Action {
    /// Ask the duplicate guard about this name.
    ProbeDuplicates(String),
    /// Request the pre-watch endpoint; keep its cookie and body token.
    Negotiate,
    /// Wait this many seconds, then report `CooldownOver`.
    Wait(u64),
    /// Request this watch URL, sending the session cookie.
    RequestWatch(String),
    /// Stream the first URL to a temporary path and rename it to the
    /// second file name only on full success, removing the temporary
    /// artifact on any failure.
    FetchFile(String, String),
    /// Apply the store commit for this title.
    ApplyCommit,
    /// Nothing more: the title is done, failed, or the event did not
    /// belong to the current stage.
    Halt,
}

/// `u64` addition that stops at the top of the range.
pub open spec fn sat_add(a: u64, b: u64) -> u64 {
    if a + b <= u64::MAX {
        (a + b) as u64
    } else {
        u64::MAX
    }
}

/// The pipeline state for one title.
pub struct Pipeline {
    /// The title being acquired.
    pub movie: Movie,
    /// The quality label that must be present in the resolved map.
    pub preferred: String,
    /// The provider-imposed cooldown, in seconds.
    pub cooldown: u64,
    /// Where the title stands.
    pub stage: Stage,
    /// The negotiated session, once `Negotiated` arrived.
    pub session: Option<Session>,
    /// When negotiation completed, in seconds.
    pub negotiated_at: Option<u64>,
    /// The earliest time the watch request may be released.
    pub ready_at: u64,
    /// When the watch request was released.
    pub resolved_at: Option<u64>,
}

/// The timing fields and the session are untouched.
pub open spec fn same_timing(pre: Pipeline, post: Pipeline) -> bool {
    &&& post.session == pre.session
    &&& post.negotiated_at == pre.negotiated_at
    &&& post.ready_at == pre.ready_at
    &&& post.resolved_at == pre.resolved_at
}

/// The transition relation of the pipeline, one arm per stage/event
/// pair; every pair not listed leaves the state untouched and asks for
/// nothing.
pub open spec fn step_rel(pre: Pipeline, e: Event, post: Pipeline, a: Action) -> bool {
    match (pre.stage, e) {
        (Stage::Queued, Event::Begin) => {
            &&& same_timing(pre, post)
            &&& post.stage is Queued
            &&& a matches Action::ProbeDuplicates(n) && n@ == pre.movie.name@
        },
        (Stage::Queued, Event::DuplicateChecked(found)) => {
            &&& same_timing(pre, post)
            &&& if found {
                post.stage == Stage::Failed(AcqError::DuplicateError) && a is Halt
            } else {
                post.stage is Negotiating && a is Negotiate
            }
        },
        (Stage::Negotiating, Event::Negotiated(s, at)) => {
            &&& post.stage is Cooling
            &&& post.session == Some(s)
            &&& post.negotiated_at == Some(at)
            &&& post.ready_at == sat_add(at, pre.cooldown)
            &&& post.resolved_at == pre.resolved_at
            &&& a matches Action::Wait(d) && d == pre.cooldown
        },
        (Stage::Negotiating, Event::NegotiationFailed) => {
            &&& same_timing(pre, post)
            &&& post.stage == Stage::Failed(AcqError::TransientNetworkError)
            &&& a is Halt
        },
        (Stage::Cooling, Event::CooldownOver(now)) => {
            if now >= pre.ready_at {
                &&& post.stage is Resolving
                &&& post.session == pre.session
                &&& post.negotiated_at == pre.negotiated_at
                &&& post.ready_at == pre.ready_at
                &&& post.resolved_at == Some(now)
                &&& a matches Action::RequestWatch(u)
                    && u@ == watch_url_view(pre.movie.id@, pre.session->0.token@)
            } else {
                &&& same_timing(pre, post)
                &&& post.stage is Cooling
                &&& a matches Action::Wait(d) && d == pre.ready_at - now
            }
        },
        (Stage::Resolving, Event::WatchReceived(r)) => {
            &&& same_timing(pre, post)
            &&& if !r.success {
                &&& post.stage matches Stage::Failed(err)
                    && err matches AcqError::UpstreamRejected(m)
                    && m@ == first_error_view(r.errors@)
                &&& a is Halt
            } else {
                match resolved_url(r.payload, pre.preferred@) {
                    Some(u) => {
                        &&& post.stage is Downloading
                        &&& a matches Action::FetchFile(du, f)
                            && du@ == download_url_view(u)
                            && f@ == file_name_view(pre.movie.name@)
                    },
                    None => {
                        &&& post.stage == Stage::Failed(AcqError::QualityUnavailable)
                        &&& a is Halt
                    },
                }
            }
        },
        (Stage::Resolving, Event::WatchFailed) => {
            &&& same_timing(pre, post)
            &&& post.stage == Stage::Failed(AcqError::TransientNetworkError)
            &&& a is Halt
        },
        (Stage::Downloading, Event::DownloadFinished(ok)) => {
            &&& same_timing(pre, post)
            &&& if ok {
                post.stage is Committing && a is ApplyCommit
            } else {
                post.stage == Stage::Failed(AcqError::DownloadIOError) && a is Halt
            }
        },
        (Stage::Committing, Event::CommitApplied) => {
            &&& same_timing(pre, post)
            &&& post.stage is Done
            &&& a is Halt
        },
        _ => post == pre && a is Halt,
    }
}

impl Pipeline {
    /// Stage-dependent validity: while cooling, the session and the
    /// negotiation time are on hand and `ready_at` lies a full cooldown
    /// after negotiation; once the watch request has been released, its
    /// release time lies at least a full cooldown after negotiation.
    pub open spec fn wf(self) -> bool {
        &&& (self.stage is Cooling ==> {
            &&& self.session is Some
            &&& self.negotiated_at is Some
            &&& self.ready_at == sat_add(self.negotiated_at->0, self.cooldown)
        })
        &&& ((self.stage is Resolving || self.stage is Downloading || self.stage is Committing
            || self.stage is Done) ==> {
            &&& self.negotiated_at is Some
            &&& self.resolved_at is Some
            &&& self.resolved_at->0 >= sat_add(self.negotiated_at->0, self.cooldown)
        })
    }

    /// A fresh pipeline for one title, with the given preferred quality
    /// label and cooldown.
    pub fn new(movie: Movie, preferred: String, cooldown: u64) -> (r: Pipeline)
        ensures
            r.wf(),
            r.movie == movie,
            r.preferred == preferred,
            r.cooldown == cooldown,
            r.stage is Queued,
            r.session is None,
            r.negotiated_at is None,
            r.ready_at == 0,
            r.resolved_at is None,
    {
        Pipeline {
            movie,
            preferred,
            cooldown,
            stage: Stage::Queued,
            session: None,
            negotiated_at: None,
            ready_at: 0,
            resolved_at: None,
        }
    }

    /// A fresh pipeline with the provider's defaults: preferred quality
    /// "480", a 30 second cooldown.
    pub fn new_default(movie: Movie) -> (r: Pipeline)
        ensures
            r.wf(),
            r.movie == movie,
            r.preferred@ == "480"@,
            r.cooldown == 30,
            r.stage is Queued,
            r.session is None,
            r.negotiated_at is None,
            r.ready_at == 0,
            r.resolved_at is None,
    {
        Pipeline::new(movie, String::from_str("480"), 30)
    }

    /// The attempt has ended, well or badly.
    pub fn is_terminal(&self) -> (r: bool)
        ensures
            r == (self.stage is Done || self.stage matches Stage::Failed(_)),
    {
        match &self.stage {
            Stage::Done => true,
            Stage::Failed(_) => true,
            _ => false,
        }
    }

    /// Feeds one event to the machine and returns what the surrounding
    /// process must do next, exactly as [`step_rel`] describes.
    pub fn step(&mut self, event: Event) -> (a: Action)
        requires
            old(self).wf(),
        ensures
            final(self).wf(),
            final(self).movie == old(self).movie,
            final(self).preferred == old(self).preferred,
            final(self).cooldown == old(self).cooldown,
            step_rel(*old(self), event, *final(self), a),
    {
        match event {
            Event::Begin => {
                if matches!(self.stage, Stage::Queued) {
                    Action::ProbeDuplicates(String::from_str(self.movie.name.as_str()))
                } else {
                    Action::Halt
                }
            },
            Event::DuplicateChecked(found) => {
                if matches!(self.stage, Stage::Queued) {
                    if found {
                        self.stage = Stage::Failed(AcqError::DuplicateError);
                        Action::Halt
                    } else {
                        self.stage = Stage::Negotiating;
                        Action::Negotiate
                    }
                } else {
                    Action::Halt
                }
            },
            Event::Negotiated(s, at) => {
                if matches!(self.stage, Stage::Negotiating) {
                    let ready = if at <= u64::MAX - self.cooldown {
                        at + self.cooldown
                    } else {
                        u64::MAX
                    };
                    self.session = Some(s);
                    self.negotiated_at = Some(at);
                    self.ready_at = ready;
                    self.stage = Stage::Cooling;
                    Action::Wait(self.cooldown)
                } else {
                    Action::Halt
                }
            },
            Event::NegotiationFailed => {
                if matches!(self.stage, Stage::Negotiating) {
                    self.stage = Stage::Failed(AcqError::TransientNetworkError);
                }
                Action::Halt
            },
            Event::CooldownOver(now) => {
                if matches!(self.stage, Stage::Cooling) {
                    if now >= self.ready_at {
                        let url = match &self.session {
                            Some(s) => watch_url(self.movie.id.as_str(), s.token.as_str()),
                            None => {
                                proof {
                                    assert(false);
                                }
                                String::new()
                            },
                        };
                        self.resolved_at = Some(now);
                        self.stage = Stage::Resolving;
                        Action::RequestWatch(url)
                    } else {
                        Action::Wait(self.ready_at - now)
                    }
                } else {
                    Action::Halt
                }
            },
            Event::WatchReceived(r) => {
                if matches!(self.stage, Stage::Resolving) {
                    let WatchResponse { success, payload, errors } = r;
                    if !success {
                        let msg = crate::quality::first_error(&errors);
                        self.stage = Stage::Failed(AcqError::UpstreamRejected(msg));
                        Action::Halt
                    } else {
                        let map = crate::quality::normalize_watch(payload);
                        let sel = crate::quality::lookup_quality(&map, self.preferred.as_str());
                        match sel {
                            Some(u) => {
                                let du = crate::quality::download_url(u.as_str());
                                let f = self.movie.file_name();
                                self.stage = Stage::Downloading;
                                Action::FetchFile(du, f)
                            },
                            None => {
                                self.stage = Stage::Failed(AcqError::QualityUnavailable);
                                Action::Halt
                            },
                        }
                    }
                } else {
                    Action::Halt
                }
            },
            Event::WatchFailed => {
                if matches!(self.stage, Stage::Resolving) {
                    self.stage = Stage::Failed(AcqError::TransientNetworkError);
                }
                Action::Halt
            },
            Event::DownloadFinished(ok) => {
                if matches!(self.stage, Stage::Downloading) {
                    if ok {
                        self.stage = Stage::Committing;
                        Action::ApplyCommit
                    } else {
                        self.stage = Stage::Failed(AcqError::DownloadIOError);
                        Action::Halt
                    }
                } else {
                    Action::Halt
                }
            },
            Event::CommitApplied => {
                if matches!(self.stage, Stage::Committing) {
                    self.stage = Stage::Done;
                }
                Action::Halt
            },
        }
    }
}

/// Timing law: once the watch request has been released, its recorded
/// release time lies at least the configured cooldown after negotiation
/// completion.
pub proof fn lemma_cooldown_respected(p: Pipeline)
    requires
        p.wf(),
        p.stage is Resolving || p.stage is Downloading || p.stage is Committing
            || p.stage is Done,
        p.negotiated_at->0 + p.cooldown <= u64::MAX,
    ensures
        p.resolved_at->0 >= p.negotiated_at->0 + p.cooldown,
{
}

/// An explicit provider rejection fails the title with the provider's
/// first reported message and asks nothing more of the process — in
/// particular no commit, so the queue entry is untouched.
pub proof fn lemma_upstream_rejection(pre: Pipeline, e: Event, post: Pipeline, a: Action)
    requires
        step_rel(pre, e, post, a),
        pre.stage is Resolving,
        e matches Event::WatchReceived(r) && !r.success,
    ensures
        (match e {
            Event::WatchReceived(r) => post.stage matches Stage::Failed(err)
                && err matches AcqError::UpstreamRejected(m)
                && m@ == first_error_view(r.errors@),
            _ => false,
        }),
        a is Halt,
{
}

/// A watch response whose resolved map lacks the preferred quality fails
/// the title with `QualityUnavailable`; no fetch is asked for, so no
/// file artifact comes into being.
pub proof fn lemma_quality_unavailable(pre: Pipeline, e: Event, post: Pipeline, a: Action)
    requires
        step_rel(pre, e, post, a),
        pre.stage is Resolving,
        e matches Event::WatchReceived(r) && r.success
            && resolved_url(r.payload, pre.preferred@) is None,
    ensures
        post.stage == Stage::Failed(AcqError::QualityUnavailable),
        a is Halt,
{
}

/// A duplicate hit fails the title while it is still queued: no
/// negotiation, no watch request and no commit is ever asked for.
pub proof fn lemma_duplicate_aborts(pre: Pipeline, e: Event, post: Pipeline, a: Action)
    requires
        step_rel(pre, e, post, a),
        pre.stage is Queued,
        e == Event::DuplicateChecked(true),
    ensures
        post.stage == Stage::Failed(AcqError::DuplicateError),
        a is Halt,
{
}

/// The store commit is asked for in exactly one place: when the file
/// fetch has finished in full. A failure at any stage therefore never
/// reaches the store, and the queue entry stands for a later attempt.
pub proof fn lemma_commit_only_after_download(pre: Pipeline, e: Event, post: Pipeline, a: Action)
    requires
        step_rel(pre, e, post, a),
        a is ApplyCommit,
    ensures
        pre.stage is Downloading,
        e == Event::DownloadFinished(true),
        post.stage is Committing,
{
}

/// Terminal stages are absorbing: from `Done` or `Failed` every event
/// leaves the pipeline unchanged and asks for nothing — no network
/// request, no download, no commit.
pub proof fn lemma_terminal_absorbing(pre: Pipeline, e: Event, post: Pipeline, a: Action)
    requires
        step_rel(pre, e, post, a),
        pre.stage is Done || pre.stage matches Stage::Failed(_),
    ensures
        post == pre,
        a is Halt,
{
}

} // verus!

//! Session negotiation: the ephemeral credential pair and the cookie
//! precedence policy.

use vstd::prelude::*;

verus! {

/// An ephemeral viewing session, scoped to a single pipeline run and
/// never persisted: the cookie negotiated with the provider (absent when
/// the provider set no cookie header) and the pre-watch token.
pub struct Session {
    pub cookie: Option<String>,
    pub token: String,
}

/// Chooses the cookie a negotiation keeps when the provider answered
/// with both a generic cookie header and a provider-specific one.
///
/// Policy, chosen deliberately since the provider leaves the order
/// unspecified: the provider-specific header wins whenever it is
/// present; the generic header is used only as a fallback.
pub fn select_cookie(generic: Option<String>, provider: Option<String>) -> (r: Option<String>)
    ensures
        provider is Some ==> r == provider,
        provider is None ==> r == generic,
{
    match provider {
        Some(c) => Some(c),
        None => generic,
    }
}

/// The watch endpoint URL for a title's id and a negotiated pre-watch
/// token.
pub open spec fn watch_url_view(id: Seq<char>, token: Seq<char>) -> Seq<char> {
    "https://api.sratim.tv/movie/watch/id/"@ + id + "/token/"@ + token
}

/// The watch endpoint URL for a title's id and a negotiated pre-watch
/// token.
pub fn watch_url(id: &str, token: &str) -> (r: String)
    ensures
        r@ == watch_url_view(id@, token@),
{
    let mut url = String::from_str("https://api.sratim.tv/movie/watch/id/");
    url.append(id);
    url.append("/token/");
    url.append(token);
    url
}

} // verus!

//! Watch resolution: normalizing the provider's drifting response shapes
//! into one quality map and selecting the preferred quality.

use vstd::prelude::*;

verus! {

/// The playable-links payload of a watch response, as one of the shapes
/// the provider has been seen to produce.
pub enum WatchPayload {
    /// An object mapping quality labels to playable URLs.
    Labeled(Vec<(String, String)>),
    /// A single playable URL carrying no quality label.
    Single(String),
    /// Any shape not recognised; resolution fails closed on it.
    Unknown,
}

/// A parsed watch response: the provider's success flag, the
/// playable-links payload, and the error messages the provider reported.
pub struct WatchResponse {
    pub success: bool,
    pub payload: WatchPayload,
    pub errors: Vec<String>,
}

/// The URL of the first entry of the quality map carrying `label`, if
/// any.
pub open spec fn quality_url(m: Seq<(String, String)>, label: Seq<char>) -> Option<Seq<char>>
    decreases m.len(),
{
    if m.len() == 0 {
        None
    } else if m[0].0@ == label {
        Some(m[0].1@)
    } else {
        quality_url(m.drop_first(), label)
    }
}

/// Some entry of the quality map carries this label.
pub open spec fn has_label(m: Seq<(String, String)>, label: Seq<char>) -> bool {
    exists|i: int| 0 <= i < m.len() && m[i].0@ == label
}

/// What resolution yields for a payload and a preferred label: a labeled
/// object is consulted as it stands; a bare single URL counts only for
/// the fixed label "480", the label the provider keys its single-object
/// shape by; an unrecognised shape yields nothing.
pub open spec fn resolved_url(payload: WatchPayload, label: Seq<char>) -> Option<Seq<char>> {
    match payload {
        WatchPayload::Labeled(v) => quality_url(v@, label),
        WatchPayload::Single(u) => if label == "480"@ {
            Some(u@)
        } else {
            None
        },
        WatchPayload::Unknown => None,
    }
}

/// The first error message of a rejected response, or nothing to report.
pub open spec fn first_error_view(errors: Seq<String>) -> Seq<char> {
    if errors.len() > 0 {
        errors[0]@
    } else {
        Seq::empty()
    }
}

/// The absolute form of the provider's scheme-relative playable URL.
pub open spec fn download_url_view(u: Seq<char>) -> Seq<char> {
    "https:"@ + u
}

/// Normalizes a payload into a quality map (label, URL), the single
/// shape the rest of the pipeline reads.
///
/// A labeled object is taken as it stands. A bare single URL is recorded
/// under the fixed label "480". An unrecognised shape yields the empty
/// map, so that selection fails closed rather than guessing at fields.
pub fn normalize_watch(payload: WatchPayload) -> (r: Vec<(String, String)>)
    ensures
        (match payload {
            WatchPayload::Labeled(v) => r == v,
            WatchPayload::Single(u) => r@.len() == 1 && r@[0].0@ == "480"@ && r@[0].1 == u,
            WatchPayload::Unknown => r@.len() == 0,
        }),
        forall|label: Seq<char>| quality_url(r@, label) == resolved_url(payload, label),
{
    let r = match payload {
        WatchPayload::Labeled(v) => v,
        WatchPayload::Single(u) => {
            let mut m: Vec<(String, String)> = Vec::new();
            m.push((String::from_str("480"), u));
            m
        },
        WatchPayload::Unknown => Vec::new(),
    };
    proof {
        assert forall|label: Seq<char>| quality_url(r@, label) == resolved_url(payload, label) by {
            match payload {
                WatchPayload::Labeled(v) => {
                    assert(r == v);
                },
                WatchPayload::Single(u) => {
                    assert(r@[0].0@ == "480"@ && r@[0].1 == u);
                    if label == "480"@ {
                        assert(quality_url(r@, label) == Some(u@));
                    } else {
                        assert(r@.drop_first().len() == 0);
                        assert(quality_url(r@.drop_first(), label) is None);
                        assert(quality_url(r@, label) is None);
                    }
                },
                WatchPayload::Unknown => {
                    assert(r@.len() == 0);
                },
            }
        };
    }
    r
}

/// Selects the preferred quality: the URL of the first entry carrying
/// `label`, or `None` when the label is absent — never a substituted
/// other quality.
pub fn lookup_quality(m: &Vec<(String, String)>, label: &str) -> (r: Option<String>)
    ensures
        (match r {
            Some(u) => quality_url(m@, label@) == Some(u@),
            None => quality_url(m@, label@) is None,
        }),
        r is None <==> !has_label(m@, label@),
{
    let lab = String::from_str(label);
    proof {
        assert(m@.subrange(0, m@.len() as int) =~= m@);
    }
    let mut k: usize = 0;
    while k < m.len()
        invariant
            k <= m@.len(),
            lab@ == label@,
            forall|j: int| 0 <= j < k ==> m@[j].0@ != label@,
            quality_url(m@, label@) == quality_url(m@.subrange(k as int, m@.len() as int), label@),
        decreases m@.len() - k,
    {
        let ghost rest = m@.subrange(k as int, m@.len() as int);
        if m[k].0.eq(&lab) {
            proof {
                assert(rest[0] == m@[k as int]);
            }
            return Some(m[k].1.clone());
        }
        proof {
            assert(rest[0] == m@[k as int]);
            assert(rest.drop_first() =~= m@.subrange(k + 1, m@.len() as int));
        }
        k += 1;
    }
    proof {
        assert(m@.subrange(m@.len() as int, m@.len() as int).len() == 0);
    }
    None
}

/// The message carried by an `UpstreamRejected` failure: the first error
/// the provider reported, or the empty string when it reported none.
pub fn first_error(errors: &Vec<String>) -> (r: String)
    ensures
        r@ == first_error_view(errors@),
{
    if errors.len() > 0 {
        errors[0].clone()
    } else {
        let r = String::new();
        proof {
            assert(r@ =~= Seq::<char>::empty());
        }
        r
    }
}

/// The absolute form of the provider's scheme-relative playable URL.
pub fn download_url(u: &str) -> (r: String)
    ensures
        r@ == download_url_view(u@),
{
    let base = String::from_str("https:");
    base.concat(u)
}

} // verus!

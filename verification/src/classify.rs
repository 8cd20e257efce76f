//! Request classifier: decides the disposition of every outbound request
//! and, for XHR requests, appends the cache-bypass headers.

use vstd::prelude::*;
use crate::request::{Request, ResourceType};

verus! {

/// How a request is handled downstream.
#[derive(Clone, Copy, Debug, PartialEq, Eq, Structural)]
pub enum Decision {
    /// A script-initiated request: cache-bypass headers are appended and a
    /// handler is created.
    Xhr,
    /// A generic resource watched by a handler, without header changes.
    Monitored,
    /// Navigations and downloads: no handler, default behavior applies.
    PassThrough,
}

/// The decision `classify` owes each resource kind: XHR requests are
/// classified `Xhr`, navigations and downloads pass through, everything
/// else is monitored.
pub open spec fn decision_for(rt: ResourceType) -> Decision {
    match rt {
        ResourceType::Xhr => Decision::Xhr,
        ResourceType::Navigation => Decision::PassThrough,
        ResourceType::Download => Decision::PassThrough,
        ResourceType::Other => Decision::Monitored,
    }
}

/// The header lines appended to an XHR request, in order.
pub open spec fn cache_bypass_entries() -> Seq<(Seq<char>, Seq<char>)> {
    seq![
        ("Cache-Control"@, "no-cache, no-store, must-revalidate"@),
        ("Pragma"@, "no-cache"@),
        ("Expires"@, "0"@),
    ]
}

/// A header multimap after the cache-bypass lines are appended: every
/// existing line is kept in place.
pub open spec fn with_cache_bypass(h: Seq<(Seq<char>, Seq<char>)>) -> Seq<(Seq<char>, Seq<char>)> {
    h + cache_bypass_entries()
}

/// Classify one outbound request.
///
/// Classification is total: every request gets a decision. Only an XHR
/// request is changed, and only by appending the cache-bypass headers; any
/// pre-existing values for those names are preserved.
pub fn classify(request: &mut Request) -> (d: Decision)
    ensures
        d == decision_for(old(request).resource_type),
        final(request).url == old(request).url,
        final(request).resource_type == old(request).resource_type,
        old(request).resource_type == ResourceType::Xhr ==> final(request).headers@
            == with_cache_bypass(old(request).headers@),
        old(request).resource_type != ResourceType::Xhr ==> final(request).headers@ == old(
            request,
        ).headers@,
{
    if request.resource_type == ResourceType::Xhr {
        request.headers.append("Cache-Control", "no-cache, no-store, must-revalidate");
        request.headers.append("Pragma", "no-cache");
        request.headers.append("Expires", "0");
        proof {
            assert(request.headers@ =~= with_cache_bypass(old(request).headers@));
        }
        Decision::Xhr
    } else if request.resource_type == ResourceType::Navigation || request.resource_type
        == ResourceType::Download {
        Decision::PassThrough
    } else {
        Decision::Monitored
    }
}

/// Appending the cache-bypass headers keeps every line that was already
/// present and adds the bypass Cache-Control line beside it: values are
/// appended, never replaced.
pub proof fn lemma_cache_bypass_appends(
    h: Seq<(Seq<char>, Seq<char>)>,
    name: Seq<char>,
    value: Seq<char>,
)
    requires
        h.contains((name, value)),
    ensures
        with_cache_bypass(h).contains((name, value)),
        with_cache_bypass(h).contains(
            ("Cache-Control"@, "no-cache, no-store, must-revalidate"@),
        ),
{
    let i = choose|i: int| 0 <= i < h.len() && h[i] == (name, value);
    assert(with_cache_bypass(h)[i] == (name, value));
    assert(with_cache_bypass(h)[h.len() as int] == (
        "Cache-Control"@,
        "no-cache, no-store, must-revalidate"@,
    ));
}

} // verus!

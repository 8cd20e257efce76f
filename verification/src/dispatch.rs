//! Resource handler dispatcher: wires the per-request lifecycle hooks and
//! creates one filter session per matched response.

use vstd::prelude::*;
use crate::config::{Config, config_rules};
use crate::filter::{FilterSession, SessionState, find_rule, opt_rule_view};
use crate::request::{Request, Response};

verus! {

/// Continuation verdict for a resource load.
#[derive(Clone, Copy, Debug, PartialEq, Eq, Structural)]
pub enum Verdict {
    /// Proceed with the request as it stands.
    Continue,
    /// Abort the request.
    Cancel,
    /// Decide later through a callback.
    ContinueAsync,
}

/// Final status of a completed resource load, as reported by the host.
#[derive(Clone, Copy, Debug, PartialEq, Eq, Structural)]
pub enum LoadStatus {
    Unknown,
    Success,
    Pending,
    Canceled,
    Failed,
}

/// Creates one filter session per matched response and answers the
/// request/response lifecycle hooks; holds the shared configuration.
pub struct Dispatcher {
    pub config: Option<Config>,
}

impl Dispatcher {
    /// A dispatcher over the shared, read-only configuration.
    pub fn new(config: Option<Config>) -> (d: Dispatcher)
        ensures
            d.config == config,
    {
        Dispatcher { config }
    }

    /// Before a matched request is sent: nothing is mutated or cancelled at
    /// this stage, so the verdict is always to continue.
    pub fn before_resource_load(&self, _request: &Request) -> (v: Verdict)
        ensures
            v == Verdict::Continue,
    {
        Verdict::Continue
    }

    /// When response headers arrive: continue with default handling.
    pub fn response_received(&self, _response: &Response) -> (r: i32)
        ensures
            r == 0,
    {
        0
    }

    /// When the host asks for a body filter: build one session from the
    /// response's originating request — its header multimap and URL — and
    /// the shared rule set.
    pub fn response_filter_requested(&self, request: &Request) -> (s: FilterSession)
        ensures
            s.state == SessionState::Created,
            s.buffer@ == Seq::<u8>::empty(),
            s.request_headers@ == request.headers@,
            s.url@ == request.url@,
            opt_rule_view(s.matched_rule) == find_rule(config_rules(self.config), request.url@),
    {
        let headers = request.headers.clone();
        let url = request.url.clone();
        FilterSession::new(headers, &self.config, url)
    }

    /// Final notification with status and byte tally, for bookkeeping only:
    /// the session is taken back and its buffer released.
    pub fn load_complete(
        &self,
        _session: FilterSession,
        _status: LoadStatus,
        _received_content_length: u64,
    ) {
    }
}

} // verus!

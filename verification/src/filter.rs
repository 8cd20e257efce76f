//! Streaming response filter engine: one stateful session per response,
//! consuming inbound byte chunks and producing outbound chunks under a
//! strict capacity contract.

use vstd::prelude::*;
use crate::config::{Config, HostRule, config_rules};
use crate::headers::HeaderMap;
use crate::text::{contains_substring, is_substring};

verus! {

/// Lifecycle of a filter session.
#[derive(Clone, Copy, Debug, PartialEq, Eq, Structural)]
pub enum SessionState {
    /// Built, not yet initialized.
    Created,
    /// `init_filter` has run; the buffer is empty.
    Initialized,
    /// At least one chunk has been offered.
    Draining,
    /// The end-of-stream signal arrived.
    Done,
    /// Reserved for invariant violations; normal operation never reaches it.
    Error,
}

/// What one filter cycle reports to the caller.
#[derive(Clone, Copy, Debug, PartialEq, Eq, Structural)]
pub enum FilterStatus {
    /// The offered input was drained completely.
    Done,
    /// Unconsumed input remains, or no output buffer was offered; the
    /// caller must come back.
    NeedMoreData,
    /// Reserved for invariant violations; normal operation never produces
    /// it.
    Error,
}

/// Name for the text that lossy UTF-8 decoding gives a byte sequence.
pub uninterp spec fn utf8_lossy_of(b: Seq<u8>) -> Seq<char>;

/// Relies on `String::from_utf8_lossy`: the text depends on the bytes
/// alone; invalid sequences are replaced, never reported.
#[verifier::external_body]
fn utf8_lossy(bytes: &[u8]) -> (r: String)
    ensures
        r@ == utf8_lossy_of(bytes@),
{
    String::from_utf8_lossy(bytes).into_owned()
}

/// Relies on uuid's `Uuid::new_v4`: an identifier drawn from the operating
/// system's randomness. Nothing is promised of its value.
#[verifier::external_body]
fn fresh_session_id() -> u128 {
    uuid::Uuid::new_v4().as_u128()
}

/// The first rule whose `xhr` substring occurs in `url`.
pub open spec fn find_rule(rules: Seq<HostRule>, url: Seq<char>) -> Option<HostRule>
    decreases rules.len(),
{
    if rules.len() == 0 {
        None
    } else if is_substring(url, rules[0].xhr) {
        Some(rules[0])
    } else {
        find_rule(rules.drop_first(), url)
    }
}

/// The rule a session resolved, seen at spec level.
pub open spec fn opt_rule_view(o: Option<crate::config::HostEntry>) -> Option<HostRule> {
    match o {
        Some(r) => Some(r@),
        None => None,
    }
}

/// First configured rule whose `xhr` substring occurs in `url`, as a fresh
/// copy.
fn find_matching_rule(rules: &Vec<crate::config::HostEntry>, url: &str) -> (r: Option<
    crate::config::HostEntry,
>)
    ensures
        opt_rule_view(r) == find_rule(rules@.map_values(|e: crate::config::HostEntry| e@), url@),
{
    let ghost rs = rules@.map_values(|e: crate::config::HostEntry| e@);
    proof {
        assert(rs.skip(0) =~= rs);
    }
    let mut i: usize = 0;
    while i < rules.len()
        invariant
            rs == rules@.map_values(|e: crate::config::HostEntry| e@),
            i <= rules@.len(),
            find_rule(rs, url@) == find_rule(rs.skip(i as int), url@),
        decreases rules@.len() - i,
    {
        if contains_substring(url, rules[i].xhr.as_str()) {
            assert(rs.skip(i as int)[0] == rs[i as int]);
            return Some(rules[i].clone());
        }
        proof {
            assert(rs.skip(i as int)[0] == rs[i as int]);
            assert(rs.skip(i as int).drop_first() =~= rs.skip(i as int + 1));
        }
        i = i + 1;
    }
    proof {
        assert(rs.skip(rs.len() as int) =~= Seq::<HostRule>::empty());
    }
    None
}

/// One per active response filter: the captured request context, the
/// diagnostic buffer, and the resolved diagnostic rule.
pub struct FilterSession {
    /// Identifier drawn at creation; unique for the session's lifetime.
    pub id: u128,
    /// Diagnostic buffer; accumulates the bytes accepted in sink mode.
    pub buffer: Vec<u8>,
    /// Headers of the originating request, captured at creation.
    pub request_headers: HeaderMap,
    /// URL of the request, captured at creation and immutable.
    pub url: String,
    /// The first configured rule whose `xhr` substring occurs in `url`,
    /// resolved once at creation.
    pub matched_rule: Option<crate::config::HostEntry>,
    /// Where the session stands in its lifecycle.
    pub state: SessionState,
}

/// What one call of `step` hands back.
pub struct StepResult {
    /// Bytes taken from the offered input; never more than its length.
    pub consumed: usize,
    /// Bytes placed in `output`; never more than the offered capacity.
    pub produced: usize,
    /// The produced bytes: a verbatim prefix of the input.
    pub output: Vec<u8>,
    /// Whether the input was drained or the caller must come back.
    pub status: FilterStatus,
    /// The lossily decoded input chunk, emitted only when the session's
    /// URL matched a configured rule.
    pub diagnostic: Option<String>,
}

impl FilterSession {
    /// Create a session for one response: capture the request's headers and
    /// URL, draw a fresh identifier, and resolve the diagnostic rule once by
    /// first substring match.
    pub fn new(request_headers: HeaderMap, config: &Option<Config>, url: String) -> (s:
        FilterSession)
        ensures
            s.state == SessionState::Created,
            s.buffer@ == Seq::<u8>::empty(),
            s.request_headers@ == request_headers@,
            s.url@ == url@,
            opt_rule_view(s.matched_rule) == find_rule(config_rules(*config), url@),
    {
        let matched_rule = match config {
            Some(c) => find_matching_rule(&c.host, url.as_str()),
            None => None,
        };
        FilterSession {
            id: fresh_session_id(),
            buffer: Vec::new(),
            request_headers,
            url,
            matched_rule,
            state: SessionState::Created,
        }
    }

    /// First lifecycle hook: clear the buffer. Always succeeds.
    pub fn init_filter(&mut self) -> (ok: bool)
        requires
            old(self).state == SessionState::Created,
        ensures
            ok,
            final(self).state == SessionState::Initialized,
            final(self).buffer@ == Seq::<u8>::empty(),
            final(self).id == old(self).id,
            final(self).url == old(self).url,
            final(self).request_headers == old(self).request_headers,
            final(self).matched_rule == old(self).matched_rule,
    {
        self.buffer.clear();
        self.state = SessionState::Initialized;
        true
    }

    /// One filter cycle.
    ///
    /// With no input, the stream has ended: nothing is consumed or produced
    /// and the session is done. With input but no output capacity ("sink"
    /// mode), the whole input is accepted into the diagnostic buffer and
    /// nothing is produced. Otherwise `min(input length, capacity)` bytes
    /// are copied verbatim from input to output, and the status is `Done`
    /// exactly when the whole input was drained this cycle.
    ///
    /// When the session's URL matched a configured rule, the input chunk is
    /// also emitted lossily decoded as the diagnostic; this never affects
    /// the counts or the status.
    pub fn step(&mut self, input: Option<&Vec<u8>>, output_capacity: usize) -> (r: StepResult)
        requires
            old(self).state == SessionState::Initialized || old(self).state
                == SessionState::Draining,
        ensures
            final(self).id == old(self).id,
            final(self).url == old(self).url,
            final(self).request_headers == old(self).request_headers,
            final(self).matched_rule == old(self).matched_rule,
            match input {
                None => {
                    &&& r.consumed == 0
                    &&& r.produced == 0
                    &&& r.output@ == Seq::<u8>::empty()
                    &&& r.status == FilterStatus::Done
                    &&& r.diagnostic is None
                    &&& final(self).state == SessionState::Done
                    &&& final(self).buffer == old(self).buffer
                },
                Some(data_in) => {
                    &&& final(self).state == SessionState::Draining
                    &&& r.consumed <= data_in@.len()
                    &&& r.produced <= output_capacity
                    &&& if output_capacity == 0 {
                        &&& r.consumed == data_in@.len()
                        &&& r.produced == 0
                        &&& r.output@ == Seq::<u8>::empty()
                        &&& r.status == FilterStatus::NeedMoreData
                        &&& final(self).buffer@ == old(self).buffer@ + data_in@
                    } else {
                        &&& r.consumed == if data_in@.len() <= output_capacity {
                            data_in@.len() as int
                        } else {
                            output_capacity as int
                        }
                        &&& r.produced == r.consumed
                        &&& r.output@ == data_in@.take(r.consumed as int)
                        &&& (r.status == FilterStatus::Done <==> r.consumed == data_in@.len())
                        &&& (r.status == FilterStatus::Done || r.status
                            == FilterStatus::NeedMoreData)
                        &&& final(self).buffer == old(self).buffer
                    }
                    &&& match r.diagnostic {
                        Some(text) => old(self).matched_rule is Some && text@ == utf8_lossy_of(
                            data_in@,
                        ),
                        None => old(self).matched_rule is None,
                    }
                },
            },
    {
        match input {
            None => {
                self.state = SessionState::Done;
                StepResult {
                    consumed: 0,
                    produced: 0,
                    output: Vec::new(),
                    status: FilterStatus::Done,
                    diagnostic: None,
                }
            },
            Some(data_in) => {
                self.state = SessionState::Draining;
                let diagnostic = match &self.matched_rule {
                    Some(_) => Some(utf8_lossy(data_in.as_slice())),
                    None => None,
                };
                if output_capacity == 0 {
                    self.buffer.extend_from_slice(data_in.as_slice());
                    proof {
                        assert(self.buffer@ =~= old(self).buffer@ + data_in@);
                    }
                    StepResult {
                        consumed: data_in.len(),
                        produced: 0,
                        output: Vec::new(),
                        status: FilterStatus::NeedMoreData,
                        diagnostic,
                    }
                } else {
                    let n = if data_in.len() <= output_capacity {
                        data_in.len()
                    } else {
                        output_capacity
                    };
                    let mut output: Vec<u8> = Vec::new();
                    let mut i: usize = 0;
                    while i < n
                        invariant
                            n <= data_in@.len(),
                            i <= n,
                            output@ == data_in@.take(i as int),
                        decreases n - i,
                    {
                        output.push(data_in[i]);
                        proof {
                            assert(output@ =~= data_in@.take(i as int + 1));
                        }
                        i = i + 1;
                    }
                    let status = if n == data_in.len() {
                        FilterStatus::Done
                    } else {
                        FilterStatus::NeedMoreData
                    };
                    StepResult { consumed: n, produced: n, output, status, diagnostic }
                }
            },
        }
    }
}

} // verus!

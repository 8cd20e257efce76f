use udata::arena::SessionArena;
use udata::classify::{classify, Decision};
use udata::config::{start_url, Config, HostEntry};
use udata::dispatch::{Dispatcher, LoadStatus, Verdict};
use udata::filter::{FilterSession, FilterStatus, SessionState};
use udata::headers::HeaderMap;
use udata::request::{Request, ResourceType, Response};
use udata::text::LimitString;

fn demo_config() -> Option<Config> {
    Some(Config {
        version: 1,
        host: vec![
            HostEntry { host: String::from("https://first.example"), xhr: String::from("api") },
            HostEntry { host: String::from("https://second.example"), xhr: String::from("feed") },
        ],
    })
}

fn xhr_request() -> Request {
    let mut headers = HeaderMap::new();
    headers.append("Cache-Control", "x");
    Request {
        url: String::from("https://first.example/api/data"),
        resource_type: ResourceType::Xhr,
        headers,
    }
}

#[test]
fn classify_xhr_appends_cache_headers() {
    let mut request = xhr_request();
    let decision = classify(&mut request);
    assert_eq!(decision, Decision::Xhr);
    assert_eq!(request.headers.len(), 4);
    // The pre-existing value is kept and the bypass value stands beside it.
    assert!(request.headers.contains_entry("Cache-Control", "x"));
    assert!(request.headers.contains_entry(
        "Cache-Control",
        "no-cache, no-store, must-revalidate"
    ));
    assert_eq!(
        request.headers.values_of("Cache-Control"),
        vec![
            String::from("x"),
            String::from("no-cache, no-store, must-revalidate"),
        ]
    );
    assert_eq!(request.headers.values_of("Pragma"), vec![String::from("no-cache")]);
    assert_eq!(request.headers.values_of("Expires"), vec![String::from("0")]);
}

#[test]
fn classify_monitored_and_pass_through() {
    let mut other = Request {
        url: String::from("https://first.example/img.png"),
        resource_type: ResourceType::Other,
        headers: HeaderMap::new(),
    };
    assert_eq!(classify(&mut other), Decision::Monitored);
    assert_eq!(other.headers.len(), 0);

    let mut nav = Request {
        url: String::from("https://first.example/"),
        resource_type: ResourceType::Navigation,
        headers: HeaderMap::new(),
    };
    assert_eq!(classify(&mut nav), Decision::PassThrough);
    assert_eq!(nav.headers.len(), 0);

    let mut download = Request {
        url: String::from("https://first.example/file.bin"),
        resource_type: ResourceType::Download,
        headers: HeaderMap::new(),
    };
    assert_eq!(classify(&mut download), Decision::PassThrough);
}

#[test]
fn header_names_compare_case_insensitively() {
    let mut headers = HeaderMap::new();
    headers.append("cache-control", "y");
    assert_eq!(headers.values_of("CACHE-CONTROL"), vec![String::from("y")]);
    assert_eq!(headers.values_of("Cache-Control"), vec![String::from("y")]);
    assert_eq!(headers.values_of("Pragma"), Vec::<String>::new());
    // Exact-entry lookup stays character-exact.
    assert!(headers.contains_entry("cache-control", "y"));
    assert!(!headers.contains_entry("Cache-Control", "y"));
}

#[test]
fn step_copies_under_capacity_contract() {
    let mut session = FilterSession::new(
        HeaderMap::new(),
        &None,
        String::from("https://elsewhere.example/page"),
    );
    assert_eq!(session.state, SessionState::Created);
    assert!(session.init_filter());
    assert_eq!(session.state, SessionState::Initialized);

    let chunk = vec![9u8, 8, 7, 6, 5];

    // Capacity below the input length: a verbatim prefix, backpressure.
    let r = session.step(Some(&chunk), 3);
    assert_eq!((r.consumed, r.produced), (3, 3));
    assert_eq!(r.output, vec![9u8, 8, 7]);
    assert_eq!(r.status, FilterStatus::NeedMoreData);
    assert_eq!(session.state, SessionState::Draining);

    // Capacity at least the input length: everything drained.
    let r = session.step(Some(&chunk), 5);
    assert_eq!((r.consumed, r.produced), (5, 5));
    assert_eq!(r.output, chunk);
    assert_eq!(r.status, FilterStatus::Done);

    let r = session.step(Some(&chunk), 9);
    assert_eq!((r.consumed, r.produced), (5, 5));
    assert_eq!(r.status, FilterStatus::Done);

    // Empty input with capacity: drained trivially.
    let empty: Vec<u8> = Vec::new();
    let r = session.step(Some(&empty), 4);
    assert_eq!((r.consumed, r.produced), (0, 0));
    assert_eq!(r.status, FilterStatus::Done);
}

#[test]
fn step_sink_mode_consumes_all_and_buffers() {
    let mut session = FilterSession::new(
        HeaderMap::new(),
        &None,
        String::from("https://elsewhere.example/page"),
    );
    assert!(session.init_filter());

    let chunk = vec![1u8, 2, 3];
    let r = session.step(Some(&chunk), 0);
    assert_eq!(r.consumed, 3);
    assert_eq!(r.produced, 0);
    assert_eq!(r.output, Vec::<u8>::new());
    assert_eq!(r.status, FilterStatus::NeedMoreData);
    assert_eq!(session.buffer, vec![1u8, 2, 3]);

    let r = session.step(Some(&chunk), 0);
    assert_eq!(r.consumed, 3);
    assert_eq!(session.buffer, vec![1u8, 2, 3, 1, 2, 3]);
}

#[test]
fn step_end_of_stream_finalizes() {
    let mut session = FilterSession::new(
        HeaderMap::new(),
        &None,
        String::from("https://elsewhere.example/page"),
    );
    assert!(session.init_filter());
    let r = session.step(None, 16);
    assert_eq!((r.consumed, r.produced), (0, 0));
    assert_eq!(r.status, FilterStatus::Done);
    assert!(r.diagnostic.is_none());
    assert_eq!(session.state, SessionState::Done);
}

#[test]
fn diagnostic_emitted_only_on_rule_match() {
    let config = demo_config();

    // The URL holds the first rule's "api" substring.
    let mut matched = FilterSession::new(
        HeaderMap::new(),
        &config,
        String::from("https://first.example/api/data"),
    );
    assert!(matched.matched_rule.is_some());
    assert_eq!(matched.matched_rule.as_ref().unwrap().xhr, "api");
    assert!(matched.init_filter());
    let chunk = b"hi there".to_vec();
    let r = matched.step(Some(&chunk), 64);
    assert_eq!(r.diagnostic, Some(String::from("hi there")));
    // Sink mode emits the diagnostic too.
    let r = matched.step(Some(&chunk), 0);
    assert_eq!(r.diagnostic, Some(String::from("hi there")));

    // No configured substring occurs in this URL.
    let mut unmatched = FilterSession::new(
        HeaderMap::new(),
        &config,
        String::from("https://first.example/home"),
    );
    assert!(unmatched.matched_rule.is_none());
    assert!(unmatched.init_filter());
    let r = unmatched.step(Some(&chunk), 64);
    assert_eq!(r.diagnostic, None);
}

#[test]
fn diagnostic_decodes_invalid_utf8_lossily() {
    let config = demo_config();
    let mut session = FilterSession::new(
        HeaderMap::new(),
        &config,
        String::from("https://first.example/api/data"),
    );
    assert!(session.init_filter());
    let chunk = vec![0xFFu8];
    let r = session.step(Some(&chunk), 8);
    assert_eq!(r.diagnostic, Some(String::from("\u{FFFD}")));
}

#[test]
fn dispatcher_hooks_and_session_wiring() {
    let dispatcher = Dispatcher::new(demo_config());
    let request = xhr_request();
    let response = Response {
        status: 200,
        mime_type: String::from("application/json"),
        headers: HeaderMap::new(),
    };

    assert_eq!(dispatcher.before_resource_load(&request), Verdict::Continue);
    assert_eq!(dispatcher.response_received(&response), 0);

    let session = dispatcher.response_filter_requested(&request);
    assert_eq!(session.state, SessionState::Created);
    assert_eq!(session.url, request.url);
    assert_eq!(session.request_headers.len(), request.headers.len());
    assert!(session.matched_rule.is_some());
    assert_eq!(session.matched_rule.as_ref().unwrap().host, "https://first.example");

    dispatcher.load_complete(session, LoadStatus::Success, 128);
}

#[test]
fn second_rule_matches_when_first_does_not() {
    let dispatcher = Dispatcher::new(demo_config());
    let request = Request {
        url: String::from("https://second.example/feed/latest"),
        resource_type: ResourceType::Other,
        headers: HeaderMap::new(),
    };
    let session = dispatcher.response_filter_requested(&request);
    assert_eq!(session.matched_rule.as_ref().unwrap().xhr, "feed");
}

#[test]
fn start_url_prefers_first_configured_host() {
    assert_eq!(start_url(&None), "https://www.example.com");
    assert_eq!(
        start_url(&Some(Config { version: 1, host: Vec::new() })),
        "https://www.example.com"
    );
    assert_eq!(start_url(&demo_config()), "https://first.example");
}

#[test]
fn limit_truncates_long_text() {
    assert_eq!(String::from("hello world").limit(5), "hello...");
    assert_eq!(String::from("hi").limit(5), "hi");
    assert_eq!(String::from("hello").limit(5), "hello");
}

#[test]
fn arena_tracks_holders_and_frees_at_zero() {
    let mut arena = SessionArena::new();
    let session = FilterSession::new(
        HeaderMap::new(),
        &None,
        String::from("https://elsewhere.example/page"),
    );
    let h = arena.attach(session);
    assert_eq!(arena.holders(h), 1);
    assert!(arena.session(h).is_some());

    arena.acquire(h);
    assert_eq!(arena.holders(h), 2);

    arena.release(h);
    assert_eq!(arena.holders(h), 1);
    assert!(arena.session(h).is_some());

    arena.release(h);
    assert_eq!(arena.holders(h), 0);
    assert!(arena.session(h).is_none());

    // A second session gets a fresh slot; the freed one stays freed.
    let other = FilterSession::new(
        HeaderMap::new(),
        &None,
        String::from("https://elsewhere.example/other"),
    );
    let h2 = arena.attach(other);
    assert_ne!(h, h2);
    assert!(arena.session(h).is_none());
    assert!(arena.session(h2).is_some());
}

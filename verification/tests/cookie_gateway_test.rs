use argusx::cookie_gateway::command_bus::{
    classify_message, command_outcome, request_id_for, resolution, CommandEnd, IncomingAction,
    IncomingEnvelope,
};
use argusx::cookie_gateway::error::CookieGatewayError;
use argusx::cookie_gateway::gateway::{
    fetch_cookies_domain, get_cookies, upload_cookies, FetchCookiesRequest, GetCookiesQuery,
    UploadCookiesRequest,
};
use argusx::cookie_gateway::proxy::{cookie_header, proxy_target, ProxyRequest};
use argusx::cookie_gateway::store::{CookieData, CookieStore};
use argusx::cookie_gateway::tool::{
    cached_output, is_fresh, refreshed_output, CookieCommandClient, CookieFetchOutput, CookieFetchSource,
    CookieFetchTool,
};
use std::cell::{Cell, RefCell};
use std::time::{SystemTime, UNIX_EPOCH};
use argusx::cookie_gateway::CookieGateway;

fn cookie(name: &str, value: &str) -> CookieData {
    CookieData {
        name: name.to_string(),
        value: value.to_string(),
        domain: "api.company.com".to_string(),
        path: "/".to_string(),
        secure: true,
        http_only: true,
        expiration_date_bits: Some(1234567890.0f64.to_bits()),
    }
}

#[test]
fn test_whitelist() {
    let store = CookieStore::new();
    assert!(store.is_whitelisted("api.company.com"));
    assert!(store.is_whitelisted("sub.company.com"));
    assert!(!store.is_whitelisted("google.com"));
}

#[test]
fn test_whitelist_edge_cases() {
    let store = CookieStore::new();

    assert!(store.is_whitelisted("api.company.com"));
    assert!(store.is_whitelisted("internal.company.net"));

    assert!(store.is_whitelisted("sub.company.com"));
    assert!(store.is_whitelisted("deep.sub.company.com"));
    assert!(store.is_whitelisted("company.com"));

    assert!(!store.is_whitelisted("google.com"));
    assert!(!store.is_whitelisted("company.org"));
    assert!(!store.is_whitelisted("notcompany.com"));
}

#[test]
fn store_and_retrieve_cookies() {
    let mut store = CookieStore::new();
    store.store_cookies_with_fetched_at("api.company.com", vec![cookie("session", "abc123")], 10);
    let retrieved = store.get_cookies("api.company.com").expect("stored");
    assert_eq!(retrieved.len(), 1);
    assert_eq!(retrieved[0].name, "session");
    assert_eq!(retrieved[0].value, "abc123");
    assert!(store.get_cookies("nonexistent.com").is_none());
    assert_eq!(store.get_cached("api.company.com").expect("cached").fetched_at_ms, 10);
}

#[test]
fn freshness_rules() {
    let mut store = CookieStore::new();
    store.store_cookies_with_fetched_at("api.company.com", vec![cookie("a", "1")], 1_000);
    let cached = store.get_cached("api.company.com").unwrap();
    assert!(is_fresh(&cached, 500, 1_400));
    assert!(is_fresh(&cached, 500, 1_500));
    assert!(!is_fresh(&cached, 500, 1_501));
    assert!(!is_fresh(&cached, 0, 1_000));
    assert!(is_fresh(&cached, 1, 900));

    let out = cached_output(&store, "api.company.com", 500, 1_200).expect("fresh");
    assert_eq!(out.source, CookieFetchSource::Cache);
    assert_eq!(out.age_ms, 200);
    assert_eq!(out.fetched_at_unix_ms, 1_000);
    assert_eq!(out.count, 1);
    assert!(cached_output(&store, "api.company.com", 100, 1_200).is_none());
    assert!(cached_output(&store, "other.company.com", 100, 1_200).is_none());
}

#[test]
fn refresh_stores_and_serves_new_cookies() {
    let mut store = CookieStore::new();
    store.store_cookies_with_fetched_at("api.company.com", vec![cookie("old", "0")], 1);
    let out = refreshed_output(&mut store, "api.company.com", vec![cookie("new", "1"), cookie("b", "2")], 5_000)
        .expect("refreshed");
    assert_eq!(out.source, CookieFetchSource::Refresh);
    assert_eq!(out.age_ms, 0);
    assert_eq!(out.count, 2);
    assert_eq!(out.cookies[0].name, "new");
    assert_eq!(store.get_cached("api.company.com").unwrap().fetched_at_ms, 5_000);
}

#[test]
fn upload_requires_whitelist_and_opt_in() {
    let mut store = CookieStore::new();
    let err = upload_cookies(
        &mut store,
        UploadCookiesRequest { domain: "google.com".into(), cookies: vec![] },
        1,
    )
    .unwrap_err();
    assert_eq!(err, CookieGatewayError::DomainNotWhitelisted { domain: "google.com".into() });
    let err = upload_cookies(
        &mut store,
        UploadCookiesRequest { domain: "api.company.com".into(), cookies: vec![cookie("a", "1")] },
        1,
    )
    .unwrap_err();
    assert_eq!(err, CookieGatewayError::UserNotOptedIn);
    assert!(store.get_cookies("api.company.com").is_none());
    store.set_opt_in(true);
    let (domain, count) = upload_cookies(
        &mut store,
        UploadCookiesRequest { domain: "api.company.com".into(), cookies: vec![cookie("a", "1")] },
        7,
    )
    .expect("stored");
    assert_eq!((domain.as_str(), count), ("api.company.com", 1));
    let resp = get_cookies(&store, &GetCookiesQuery { domain: "api.company.com".into() }).unwrap();
    assert_eq!(resp.cookies.len(), 1);
    let resp = get_cookies(&store, &GetCookiesQuery { domain: "x.company.com".into() }).unwrap();
    assert!(resp.cookies.is_empty());
}

#[test]
fn fetch_domain_checks() {
    let mut store = CookieStore::new();
    let req = |d: &str| FetchCookiesRequest { domain: d.to_string(), refresh_after_ms: 10 };
    assert_eq!(
        fetch_cookies_domain(&store, &req("   ")),
        Err(CookieGatewayError::InvalidDomain { domain: "   ".into() })
    );
    assert_eq!(fetch_cookies_domain(&store, &req("api.company.com")), Err(CookieGatewayError::UserNotOptedIn));
    store.set_opt_in(true);
    assert_eq!(fetch_cookies_domain(&store, &req(" api.company.com ")), Ok("api.company.com".to_string()));
    // Fetching is not limited to whitelisted domains.
    assert_eq!(fetch_cookies_domain(&store, &req(" evil.com ")), Ok("evil.com".to_string()));
}

#[test]
fn error_messages_and_responses() {
    let e = CookieGatewayError::ExtensionCommandTimeout { domain: "a.company.com".into(), timeout_ms: 10_000 };
    assert_eq!(e.message(), "Extension command timed out for domain 'a.company.com' after 10000ms");
    assert_eq!(e.into_response(), (504, e.message()));
    let e = CookieGatewayError::DomainNotWhitelisted { domain: "x.org".into() };
    assert_eq!(e.message(), "Domain not whitelisted: x.org");
    assert_eq!(e.into_response(), (403, "Domain 'x.org' is not whitelisted".to_string()));
    assert_eq!(CookieGatewayError::UserNotOptedIn.into_response().0, 403);
    assert_eq!(CookieGatewayError::ExtensionClientUnavailable.into_response().0, 503);
    assert_eq!(CookieGatewayError::NoCookiesFound { domain: "d".into() }.into_response().0, 404);
    assert_eq!(CookieGatewayError::InvalidUrl { url: "u".into() }.into_response(), (400, "Invalid URL: u".to_string()));
    assert_eq!(CookieGatewayError::ResponseParseError { message: "m".into() }.into_response().0, 500);
}

#[test]
fn proxy_checks_and_cookie_header() {
    assert_eq!(cookie_header(&vec![]), "");
    assert_eq!(cookie_header(&vec![cookie("a", "1"), cookie("b", "2")]), "a=1; b=2");
    let mut store = CookieStore::new();
    let req = |u: &str| ProxyRequest { url: u.to_string() };
    let err = proxy_target(&store, &req("not a url")).unwrap_err();
    assert_eq!(err.0, 400);
    assert!(err.1.starts_with("Invalid URL: "));
    assert_eq!(
        proxy_target(&store, &req("https://evil.com/x")).unwrap_err(),
        (403, "Domain evil.com is not whitelisted".to_string())
    );
    assert_eq!(proxy_target(&store, &req("https://api.company.com/x")).unwrap_err().0, 403);
    store.set_opt_in(true);
    let (_, header) = proxy_target(&store, &req("https://api.company.com/x")).expect("allowed");
    assert_eq!(header, None);
    store.store_cookies_with_fetched_at("api.company.com", vec![cookie("s", "v")], 1);
    let (url, header) = proxy_target(&store, &req("https://api.company.com/x")).expect("allowed");
    assert_eq!(header, Some("s=v".to_string()));
    assert_eq!(url.as_str(), "https://api.company.com/x");
}

#[test]
fn command_bus_decisions() {
    let env = |t: Option<&str>, id: Option<&str>, ok: Option<bool>, err: Option<&str>| IncomingEnvelope {
        msg_type: t.map(|s| s.to_string()),
        request_id: id.map(|s| s.to_string()),
        ok,
        cookies: None,
        error: err.map(|s| s.to_string()),
    };
    assert_eq!(classify_message(&env(Some("PING"), None, None, None)), IncomingAction::Pong);
    assert_eq!(classify_message(&env(Some("ACTION_RESULT"), None, None, None)), IncomingAction::Resolve);
    assert_eq!(classify_message(&env(Some("OTHER"), None, None, None)), IncomingAction::Ignore);
    assert_eq!(classify_message(&env(None, None, None, None)), IncomingAction::Ignore);
    assert!(resolution(env(Some("ACTION_RESULT"), Some(""), Some(true), None)).is_none());
    assert!(resolution(env(Some("ACTION_RESULT"), None, Some(true), None)).is_none());
    let (id, outcome) = resolution(env(Some("ACTION_RESULT"), Some("r1"), Some(true), None)).unwrap();
    assert_eq!(id, "r1");
    assert!(outcome.unwrap().is_empty());
    let (_, outcome) = resolution(env(Some("ACTION_RESULT"), Some("r2"), None, None)).unwrap();
    assert_eq!(outcome.unwrap_err(), "extension action failed");
    let (_, outcome) = resolution(env(Some("ACTION_RESULT"), Some("r3"), Some(false), Some("denied"))).unwrap();
    assert_eq!(outcome.unwrap_err(), "denied");
    assert_eq!(request_id_for(17), "get-cookies-17");
    assert_eq!(
        command_outcome("a.company.com", 250, CommandEnd::TimedOut).unwrap_err(),
        CookieGatewayError::ExtensionCommandTimeout { domain: "a.company.com".into(), timeout_ms: 250 }
    );
    assert_eq!(
        command_outcome("a", 1, CommandEnd::ChannelClosed).unwrap_err(),
        CookieGatewayError::ExtensionCommandFailed { message: "extension response channel closed".into() }
    );
    assert_eq!(
        command_outcome("a", 1, CommandEnd::Answered(Err("x".into()))).unwrap_err(),
        CookieGatewayError::ExtensionCommandFailed { message: "x".into() }
    );
}

#[test]
fn gateway_serves_its_store() {
    let mut store = CookieStore::new();
    store.set_opt_in(true);
    let gateway = CookieGateway::new(store);
    assert!(gateway.store().is_opted_in());
}


fn sample_cookie(domain: &str, value: &str) -> CookieData {
    CookieData {
        name: "session".to_string(),
        value: value.to_string(),
        domain: domain.to_string(),
        path: "/".to_string(),
        secure: true,
        http_only: true,
        expiration_date_bits: None,
    }
}

fn clock_ms() -> u64 {
    SystemTime::now().duration_since(UNIX_EPOCH).unwrap().as_millis() as u64
}

/// A command client with no extension connected.
struct NoExtension;

impl CookieCommandClient for NoExtension {
    fn request_cookies(&self, _domain: &str, _timeout_ms: u64) -> Result<Vec<CookieData>, CookieGatewayError> {
        Err(CookieGatewayError::ExtensionClientUnavailable)
    }
}

/// A command client that counts its calls and answers fixed cookies, or fails.
struct MockCommandClient {
    calls: Cell<usize>,
    asked: RefCell<Vec<(String, u64)>>,
    cookies: Vec<CookieData>,
    fail: bool,
}

impl MockCommandClient {
    fn success(cookies: Vec<CookieData>) -> Self {
        MockCommandClient { calls: Cell::new(0), asked: RefCell::new(vec![]), cookies, fail: false }
    }

    fn fail() -> Self {
        MockCommandClient { calls: Cell::new(0), asked: RefCell::new(vec![]), cookies: vec![], fail: true }
    }
}

impl CookieCommandClient for &MockCommandClient {
    fn request_cookies(&self, domain: &str, timeout_ms: u64) -> Result<Vec<CookieData>, CookieGatewayError> {
        self.calls.set(self.calls.get() + 1);
        self.asked.borrow_mut().push((domain.to_string(), timeout_ms));
        if self.fail {
            return Err(CookieGatewayError::ExtensionClientUnavailable);
        }
        Ok(self.cookies.iter().map(|c| c.duplicate()).collect())
    }
}

/// The status and body with which the fetch endpoint answers.
fn fetch_endpoint(store: CookieStore, domain: &str, refresh_after_ms: u64) -> (u16, Option<CookieFetchOutput>) {
    let payload = FetchCookiesRequest { domain: domain.to_string(), refresh_after_ms };
    match fetch_cookies_domain(&store, &payload) {
        Err(e) => (e.into_response().0, None),
        Ok(d) => {
            let mut store = store;
            let tool = CookieFetchTool::new(NoExtension, 10_000);
            match tool.fetch(&mut store, &d, payload.refresh_after_ms) {
                Ok(out) => (200, Some(out)),
                Err(e) => (e.into_response().0, None),
            }
        }
    }
}

/// The status with which the upload endpoint answers.
fn upload_endpoint(store: &mut CookieStore, domain: &str, cookies: Vec<CookieData>) -> u16 {
    let payload = UploadCookiesRequest { domain: domain.to_string(), cookies };
    match upload_cookies(store, payload, clock_ms()) {
        Ok(_) => 200,
        Err(e) => e.into_response().0,
    }
}

#[test]
fn test_store_and_retrieve_cookies() {
    let mut store = CookieStore::new();
    let cookies = vec![CookieData {
        name: "session".to_string(),
        value: "abc123".to_string(),
        domain: "api.company.com".to_string(),
        path: "/".to_string(),
        secure: true,
        http_only: true,
        expiration_date_bits: Some(1234567890.0f64.to_bits()),
    }];

    store.store_cookies("api.company.com", cookies);

    let retrieved = store.get_cookies("api.company.com");
    assert!(retrieved.is_some());
    let retrieved_cookies = retrieved.unwrap();
    assert_eq!(retrieved_cookies.len(), 1);
    assert_eq!(retrieved_cookies[0].name, "session");
    assert_eq!(retrieved_cookies[0].value, "abc123");
}

#[test]
fn test_get_nonexistent_cookies() {
    let store = CookieStore::new();
    assert!(store.get_cookies("nonexistent.com").is_none());
}

#[test]
fn test_upload_cookies() {
    let mut store = CookieStore::new();
    store.set_opt_in(true);
    let status = upload_endpoint(&mut store, "api.company.com", vec![sample_cookie("api.company.com", "abc123")]);
    assert_eq!(status, 200);
}

#[test]
fn test_upload_cookies_rejects_non_whitelisted_domain() {
    let mut store = CookieStore::new();
    let status = upload_endpoint(&mut store, "malicious.com", vec![sample_cookie("malicious.com", "evil")]);
    assert_eq!(status, 403);
}

#[test]
fn test_get_cookies() {
    let mut store = CookieStore::new();
    store.set_opt_in(true);
    let _ = upload_endpoint(&mut store, "api.company.com", vec![sample_cookie("api.company.com", "abc123")]);
    let response = get_cookies(&store, &GetCookiesQuery { domain: "api.company.com".to_string() }).expect("ok");
    assert_eq!(response.cookies.len(), 1);
}

#[test]
fn test_fetch_cookies_returns_cache_when_fresh() {
    let mut store = CookieStore::new();
    store.set_opt_in(true);
    store.store_cookies("api.company.com", vec![sample_cookie("api.company.com", "cached")]);
    let (status, body) = fetch_endpoint(store, "api.company.com", 60_000);
    assert_eq!(status, 200);
    let body = body.unwrap();
    assert_eq!(body.source, CookieFetchSource::Cache);
    assert_eq!(body.count, 1);
}

#[test]
fn test_fetch_cookies_returns_503_without_connected_extension() {
    let mut store = CookieStore::new();
    store.set_opt_in(true);
    let (status, _) = fetch_endpoint(store, "api.company.com", 1);
    assert_eq!(status, 503);
}

#[test]
fn test_fetch_tool_accepts_non_whitelisted_domain() {
    let mut store = CookieStore::new();
    store.set_opt_in(true);
    let (status, _) = fetch_endpoint(store, "github.com", 1);
    assert_eq!(status, 503);
}

#[test]
fn fetch_returns_cache_when_fresh() {
    let mut store = CookieStore::new();
    store.store_cookies("api.company.com", vec![sample_cookie("api.company.com", "cached")]);
    let client = MockCommandClient::success(vec![sample_cookie("api.company.com", "from-client")]);
    let tool = CookieFetchTool::new(&client, 2_000);
    let output = tool.fetch(&mut store, "api.company.com", 60_000).unwrap();

    assert_eq!(output.source, CookieFetchSource::Cache);
    assert_eq!(output.count, 1);
    assert_eq!(output.cookies[0].value, "cached");
    assert_eq!(client.calls.get(), 0);
}

#[test]
fn fetch_refreshes_when_stale() {
    let mut store = CookieStore::new();
    store.store_cookies_with_fetched_at(
        "api.company.com",
        vec![sample_cookie("api.company.com", "stale")],
        clock_ms() - 3_600_000,
    );
    let client = MockCommandClient::success(vec![sample_cookie("api.company.com", "fresh")]);
    let tool = CookieFetchTool::new(&client, 2_000);
    let output = tool.fetch(&mut store, "api.company.com", 1_000).unwrap();

    assert_eq!(output.source, CookieFetchSource::Refresh);
    assert_eq!(output.cookies[0].value, "fresh");
    assert_eq!(client.calls.get(), 1);
    let cached = store.get_cookies("api.company.com").unwrap();
    assert_eq!(cached[0].value, "fresh");
}

#[test]
fn fetch_returns_error_when_missing_and_client_unavailable() {
    let mut store = CookieStore::new();
    let client = MockCommandClient::fail();
    let tool = CookieFetchTool::new(&client, 2_000);
    let err = tool.fetch(&mut store, "api.company.com", 10_000).unwrap_err();
    assert_eq!(err, CookieGatewayError::ExtensionClientUnavailable);
    assert_eq!(client.calls.get(), 1);
}

#[test]
fn fetch_with_zero_interval_always_refreshes() {
    let mut store = CookieStore::new();
    store.store_cookies("api.company.com", vec![sample_cookie("api.company.com", "cached")]);
    let client = MockCommandClient::success(vec![sample_cookie("api.company.com", "fresh")]);
    let tool = CookieFetchTool::new(&client, 2_000);
    let output = tool.fetch(&mut store, "api.company.com", 0).unwrap();
    assert_eq!(output.source, CookieFetchSource::Refresh);
    assert_eq!(output.age_ms, 0);
}

#[test]
fn fetch_deduplicates_refresh_requests_for_same_domain() {
    // Fetches share the store one at a time, so the second sees the first's refresh.
    let mut store = CookieStore::new();
    let client = MockCommandClient::success(vec![sample_cookie("api.company.com", "fresh")]);
    let tool = CookieFetchTool::new(&client, 2_000);

    let first = tool.fetch(&mut store, "api.company.com", 1_000).unwrap();
    let second = tool.fetch(&mut store, "api.company.com", 1_000).unwrap();

    assert!(matches!(first.source, CookieFetchSource::Refresh | CookieFetchSource::Cache));
    assert!(matches!(second.source, CookieFetchSource::Refresh | CookieFetchSource::Cache));
    assert_eq!(client.calls.get(), 1);
}

#[test]
fn fetch_with_the_largest_interval_serves_stored_cookies() {
    let mut store = CookieStore::new();
    store.store_cookies_with_fetched_at("api.company.com", vec![sample_cookie("api.company.com", "old")], 0);
    let client = MockCommandClient::fail();
    let tool = CookieFetchTool::new(&client, 2_000);
    let output = tool.fetch(&mut store, "api.company.com", u64::MAX).unwrap();
    assert_eq!(output.source, CookieFetchSource::Cache);
    assert_eq!(output.cookies[0].value, "old");
    assert_eq!(client.calls.get(), 0);
}

#[test]
fn fetch_asks_the_client_for_the_domain_with_the_tool_timeout() {
    let mut store = CookieStore::new();
    let client = MockCommandClient::success(vec![sample_cookie("docs.company.com", "v")]);
    let tool = CookieFetchTool::new(&client, 1_234);
    let output = tool.fetch(&mut store, "docs.company.com", 60_000).unwrap();
    assert_eq!(output.source, CookieFetchSource::Refresh);
    assert_eq!(output.cookies[0].value, "v");
    assert_eq!(client.asked.borrow().clone(), vec![("docs.company.com".to_string(), 1_234u64)]);
    let failing = MockCommandClient::fail();
    let tool = CookieFetchTool::new(&failing, 99);
    assert!(tool.fetch(&mut CookieStore::new(), "other.company.com", 0).is_err());
    assert_eq!(failing.asked.borrow().clone(), vec![("other.company.com".to_string(), 99u64)]);
}

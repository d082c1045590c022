use gopher::github::cache::{retry_seconds, ApiState, MAX_ENTRIES};
use gopher::github::response::response;
use gopher::text_map::TextMap;

fn headers(pairs: &[(&str, &str)]) -> TextMap<String> {
    let mut map = TextMap::new();
    for (name, value) in pairs {
        map.insert(name.to_string(), value.to_string());
    }
    map
}

#[test]
fn parses_status_headers_and_empty_304_without_reading_body_as_headers() {
    let read = response(
        b"HTTP/1.1 200 Connection established\r\n\r\nHTTP/2.0 304 Not Modified\r\nETag: W/\"a\"\r\nX-RateLimit-Remaining: 42\r\n\r\n",
    )
    .unwrap();
    assert_eq!(read.status, 304);
    assert_eq!(read.headers.get("etag").unwrap(), "W/\"a\"");
    assert_eq!(read.headers.get("x-ratelimit-remaining").unwrap(), "42");
    assert!(read.body.is_empty());
    assert_eq!(response(b"HTTP/2.0 200 OK\nETag: x\n\n[]").unwrap().body, b"[]");
    assert!(response(b"HTTP/2.0 200 OK").is_err());
}

#[test]
fn cache_requires_verified_account_and_invalidates_in_flight_keys() {
    let mut state = ApiState::new();
    assert!(state.key("repos/a/b/labels", None).is_none());
    state.identify("alice");
    let key = state.key("repos/a/b/labels", Some("alice")).unwrap();
    state.put(&key, Some("first"), b"[]");
    assert!(state.get(&key).is_some());
    state.invalidate();
    state.put(&key, Some("late"), b"[]");
    assert!(state.get(&key).is_none());
    let key = state.key("repos/a/b/labels", Some("alice")).unwrap();
    state.put(&key, Some("second"), b"[]");
    state.identify("bob");
    assert!(state.get(&key).is_none());
    assert!(state.key("repos/a/b/labels", Some("alice")).is_none());
    state.put(&key, Some("late"), b"[]");
    assert_eq!(state.cached_count(), 0);
}

#[test]
fn response_cache_bounds_memory_and_does_not_retain_unvalidated_bodies() {
    let mut state = ApiState::new();
    state.identify("alice");
    let key = state.key("repos/a/b/labels", Some("alice")).unwrap();
    state.put(&key, Some("x"), &vec![b' '; 1024 * 1024 + 1]);
    assert!(state.get(&key).is_none());
    state.put(&key, Some("x"), b"[]");
    state.put(&key, None, b"[]");
    assert!(state.get(&key).is_none());
    assert_eq!(state.cached_bytes(), 0);
}

#[test]
fn rate_limits_respect_resource_reset_retry_after_and_exponential_cooldown() {
    let unix = 1_700_000_000;
    let mut state = ApiState::new();
    let reset = (unix + 600).to_string();
    state.observe(
        &headers(&[
            ("x-ratelimit-resource", "graphql"),
            ("x-ratelimit-remaining", "0"),
            ("x-ratelimit-reset", &reset),
        ]),
        "graphql",
        true,
        0,
        unix,
    );
    assert!(state.delay(Some("graphql"), 0) >= 599);
    assert_eq!(state.delay(Some("core"), 0), 0);
    state.observe(&headers(&[("retry-after", "120")]), "core", true, 0, unix);
    assert!(state.delay(Some("core"), 0) >= 119);
    let mut state = ApiState::new();
    state.observe(&headers(&[]), "core", true, 0, unix);
    assert!(state.delay(None, 0) >= 59);
    // The pause ends, and the next limit pauses longer.
    let later = 1_000_000;
    assert_eq!(state.delay(None, later), 0);
    state.observe(&headers(&[]), "core", true, later, unix);
    assert!(state.delay(None, later) >= 119);
    let later = 2_000_000;
    state.observe(&headers(&[]), "core", false, later, unix);
    assert_eq!(state.failures(), 0);
}

#[test]
fn retry_times_are_read_as_seconds_and_as_dates() {
    assert_eq!(retry_seconds(&headers(&[("retry-after", "120")]), 0), Some(120));
    assert_eq!(
        retry_seconds(&headers(&[("retry-after", "Thu, 01 Jan 1970 00:02:00 GMT")]), 60),
        Some(61)
    );
    assert_eq!(retry_seconds(&headers(&[("retry-after", "soon")]), 0), None);
    assert_eq!(retry_seconds(&headers(&[]), 0), None);
}

#[test]
fn the_cache_forgets_the_oldest_replies() {
    let mut state = ApiState::new();
    state.identify("alice");
    for i in 0..MAX_ENTRIES + 10 {
        let key = state.key(&format!("repos/a/b/{i}"), Some("alice")).unwrap();
        state.put(&key, Some("x"), b"[]");
    }
    assert!(state.cached_count() <= MAX_ENTRIES);
    let newest = state.key(&format!("repos/a/b/{}", MAX_ENTRIES + 9), Some("alice")).unwrap();
    assert!(state.get(&newest).is_some());
}

#[test]
fn unavailable_services_pause_requests_only_where_they_ask_for_it() {
    let mut state = ApiState::new();
    state.observe_service_retry(&headers(&[]), 0, 0);
    assert_eq!(state.delay(Some("core"), 0), 0);
    state.observe_service_retry(&headers(&[("retry-after", "30")]), 0, 0);
    assert_eq!(state.delay(Some("core"), 0), 30_000);
    assert_eq!(state.delay(Some("graphql"), 10_000), 20_000);
}

#[test]
fn pauses_double_until_the_fifth() {
    let mut state = ApiState::new();
    for seconds in [60, 120, 240, 480, 960, 960, 960] {
        state.observe(&headers(&[]), "core", true, 5_000, 0);
        assert_eq!(state.delay(Some("graphql"), 5_000), seconds * 1000);
        assert_eq!(state.delay(None, 5_000), seconds * 1000);
    }
}

#[test]
fn changes_take_all_older_keys_away_and_keep_the_account() {
    let mut state = ApiState::new();
    state.identify("alice");
    let oldest = state.key("user", Some("alice")).unwrap();
    state.invalidate();
    let older = state.key("user", Some("alice")).unwrap();
    state.put(&older, Some("tag"), b"body");
    state.observe(&headers(&[("retry-after", "30")]), "core", true, 0, 0);
    state.invalidate();
    for key in [&oldest, &older] {
        assert!(state.get(key).is_none());
        state.put(key, Some("tag"), b"late");
        assert_eq!(state.cached_count(), 0);
    }
    let newest = state.key("user", Some("alice")).unwrap();
    state.put(&newest, Some("tag"), b"new");
    assert_eq!(state.get(&newest).unwrap().body, b"new");
    assert_eq!(state.delay(Some("core"), 0), 30_000);
}

#[test]
fn long_bodies_are_not_remembered() {
    let mut state = ApiState::new();
    state.identify("alice");
    let key = state.key("user", Some("alice")).unwrap();
    state.put(&key, Some("tag"), &vec![0; 1024 * 1024]);
    assert_eq!(state.cached_bytes(), 1024 * 1024);
    state.put(&key, Some("tag"), &vec![0; 1024 * 1024 + 1]);
    assert_eq!(state.cached_count(), 0);
}

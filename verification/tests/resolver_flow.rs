use edge_gateway::cache::{CacheEvent, FetchOutcome};
use edge_gateway::error::{FetchError, SelectionError};
use edge_gateway::resolver::{resolve_literal, Resolution, ResolveAction, TABLE_KEY, TABLE_TTL};

const TWO: &str = r#"{"ID": ["1.2.3.4:443", "5.6.7.8:8443"]}"#;

fn read_cache() -> ResolveAction {
    ResolveAction::ReadCache { key: "proxy_kv".to_string() }
}

fn finished(state: &Resolution) -> Result<(String, u16), SelectionError> {
    match state.action() {
        ResolveAction::Finish(Ok(endpoint)) => Ok((endpoint.host().to_string(), endpoint.port())),
        ResolveAction::Finish(Err(e)) => Err(e),
        other => panic!("not finished: {:?}", other),
    }
}

fn cached(document: &str) -> CacheEvent {
    CacheEvent::Cached(Some(document.to_string()))
}

fn fetched(status: u16, document: &str) -> CacheEvent {
    CacheEvent::Fetched(FetchOutcome::Answered { status, body: document.to_string() })
}

#[test]
fn table_is_cached_under_its_key_for_six_hours() {
    assert_eq!(TABLE_KEY, "proxy_kv");
    assert_eq!(TABLE_TTL, 6 * 60 * 60);
}

#[test]
fn literal_selector_resolves_without_cache_access() {
    for (selector, host, port) in [
        ("1.2.3.4:443", "1.2.3.4", 443u16),
        ("1.2.3.4:1", "1.2.3.4", 1),
        ("1.2.3.4:65535", "1.2.3.4", 65535),
        ("[::1]:8080", "[::1]", 8080),
        ("9a.example.com=80", "9a.example.com", 80),
        ("x-y-z-7", "x-y-z", 7),
    ] {
        let state = Resolution::start(selector);
        assert_eq!(finished(&state), Ok((host.to_string(), port)), "{:?}", selector);
        let endpoint = state.outcome().unwrap().as_ref().unwrap();
        assert_eq!((endpoint.host(), endpoint.port()), (host, port));
    }
}

#[test]
fn every_port_resolves_to_itself() {
    for port in 1..=65535u32 {
        let selector = format!("10.0.0.1:{}", port);
        let endpoint = resolve_literal(&selector).unwrap();
        assert_eq!(endpoint.host(), "10.0.0.1");
        assert_eq!(endpoint.port() as u32, port);
    }
}

#[test]
fn selector_that_is_neither_fails_at_once() {
    for selector in ["", "!", "1.2.3.4", "!!not-an-endpoint", "1.2.3.4:", "4:x", ":80"] {
        let state = Resolution::start(selector);
        assert_eq!(finished(&state), Err(SelectionError::Unparseable), "{:?}", selector);
        assert!(SelectionError::Unparseable.is_format_error());
    }
    assert_eq!(finished(&Resolution::start("1.2.3.4:0")), Err(SelectionError::PortRange));
    assert_eq!(finished(&Resolution::start("1.2.3.4:65536")), Err(SelectionError::PortRange));
    assert_eq!(resolve_literal("1.2.3.4:70000"), Err(SelectionError::PortRange));
    assert_eq!(resolve_literal("nothing"), Err(SelectionError::Unparseable));
}

#[test]
fn selector_with_two_leading_letters_goes_to_the_table() {
    for selector in ["not-an-endpoint!!", "ab.example.com:443", "id", "localhost:80"] {
        let state = Resolution::start(selector);
        assert_eq!(state.action(), read_cache(), "{:?}", selector);
        assert!(state.outcome().is_none());
    }
    let state = Resolution::start("not-an-endpoint!!").step_with(cached(TWO), 0);
    assert_eq!(finished(&state), Err(SelectionError::NotFound));
    let state = Resolution::start("ab.example.com:443").step_with(cached(TWO), 0);
    assert_eq!(finished(&state), Err(SelectionError::NotFound));
    let state = Resolution::start("ab.example.com:443")
        .step_with(cached(r#"{"AB.EXAMPLE.COM:443": ["9.9.9.9:9"]}"#), 0);
    assert_eq!(finished(&state), Ok(("9.9.9.9".to_string(), 9)));
}

#[test]
fn country_resolves_from_the_cached_table() {
    let state = Resolution::start("ID");
    assert_eq!(state.action(), read_cache());
    let state = state.step_with(cached(TWO), 1);
    assert_eq!(finished(&state), Ok(("5.6.7.8".to_string(), 8443)));
}

#[test]
fn country_code_in_any_case_resolves_identically() {
    for random in [0u8, 1, 2, 77, 255] {
        let mut outcomes = Vec::new();
        for selector in ["id", "ID", "Id", "iD"] {
            let state = Resolution::start(selector);
            assert_eq!(state.action(), read_cache());
            outcomes.push(finished(&state.step_with(cached(TWO), random)));
        }
        let expected = if random % 2 == 0 { ("1.2.3.4".to_string(), 443) } else { ("5.6.7.8".to_string(), 8443) };
        assert_eq!(outcomes, vec![Ok(expected); 4]);
    }
}

#[test]
fn missing_table_is_fetched_and_cached_before_it_is_read() {
    let state = Resolution::start("id").step_with(CacheEvent::Cached(None), 0);
    assert_eq!(state.action(), ResolveAction::FetchTable);
    let state = state.step_with(fetched(200, TWO), 0);
    assert_eq!(
        state.action(),
        ResolveAction::StoreTable { key: "proxy_kv".to_string(), document: TWO.to_string(), ttl: 21600 }
    );
    assert!(state.outcome().is_none());
    let state = state.step_with(CacheEvent::Stored, 2);
    assert_eq!(finished(&state), Ok(("1.2.3.4".to_string(), 443)));
}

#[test]
fn empty_cached_table_is_fetched_anew() {
    let state = Resolution::start("id").step_with(cached(""), 0);
    assert_eq!(state.action(), ResolveAction::FetchTable);
}

#[test]
fn malformed_table_is_cached_all_the_same() {
    let state = Resolution::start("id")
        .step_with(CacheEvent::Cached(None), 0)
        .step_with(fetched(200, "<html>"), 0);
    assert_eq!(
        state.action(),
        ResolveAction::StoreTable { key: "proxy_kv".to_string(), document: "<html>".to_string(), ttl: 21600 }
    );
    let state = state.step_with(CacheEvent::Stored, 0);
    assert_eq!(finished(&state), Err(SelectionError::MalformedTable));
}

#[test]
fn failed_fetch_ends_the_resolution_and_stores_nothing() {
    let state = Resolution::start("id")
        .step_with(CacheEvent::Cached(None), 0)
        .step_with(fetched(404, TWO), 0);
    assert_eq!(finished(&state), Err(SelectionError::Fetch(FetchError::Status(404))));
    let state = Resolution::start("id")
        .step_with(CacheEvent::Cached(None), 0)
        .step_with(CacheEvent::Fetched(FetchOutcome::Unreachable), 0);
    assert_eq!(finished(&state), Err(SelectionError::Fetch(FetchError::Unreachable)));
}

#[test]
fn finished_resolution_stays_finished() {
    let state = Resolution::start("1.2.3.4:443")
        .step_with(cached(TWO), 0)
        .step_with(CacheEvent::Stored, 0)
        .step(CacheEvent::Cached(None));
    assert_eq!(finished(&state), Ok(("1.2.3.4".to_string(), 443)));
    let state = Resolution::start("zz").step_with(cached(TWO), 0).step(fetched(200, TWO));
    assert_eq!(finished(&state), Err(SelectionError::NotFound));
}

#[test]
fn unexpected_events_change_nothing() {
    let state = Resolution::start("id").step(CacheEvent::Stored).step(fetched(200, TWO));
    assert_eq!(state.action(), read_cache());
    let state = state.step(CacheEvent::Cached(None)).step(cached(TWO));
    assert_eq!(state.action(), ResolveAction::FetchTable);
}

#[test]
fn system_random_byte_chooses_among_the_endpoints() {
    let mut seen = [0usize; 2];
    for _ in 0..200 {
        match finished(&Resolution::start("id").step(cached(TWO))) {
            Ok((host, 443)) if host == "1.2.3.4" => seen[0] += 1,
            Ok((host, 8443)) if host == "5.6.7.8" => seen[1] += 1,
            other => panic!("{:?}", other),
        }
    }
    assert!(seen[0] > 0 && seen[1] > 0, "{:?}", seen);
}

#[test]
fn system_random_byte_is_not_needed_without_a_choice() {
    assert_eq!(finished(&Resolution::start("sg").step(cached(TWO))), Err(SelectionError::NotFound));
    assert_eq!(
        finished(&Resolution::start("sg").step(cached(r#"{"SG": []}"#))),
        Err(SelectionError::NotFound)
    );
    assert_eq!(finished(&Resolution::start("sg").step(cached("{"))), Err(SelectionError::MalformedTable));
}

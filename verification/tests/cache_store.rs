use std::collections::HashMap;

use edge_gateway::cache::{CacheAction, CacheEvent, FetchOutcome, GetOrFetch, STATUS_OK};
use edge_gateway::error::FetchError;

/// A cache that forgets a value once its time to live has passed.
struct ExpiringCache {
    now: u64,
    slots: HashMap<String, (String, u64)>,
}

impl ExpiringCache {
    fn new() -> Self {
        ExpiringCache { now: 0, slots: HashMap::new() }
    }

    fn get(&self, key: &str) -> Option<String> {
        match self.slots.get(key) {
            Some((value, expires)) if self.now < *expires => Some(value.clone()),
            _ => None,
        }
    }

    fn put(&mut self, key: String, value: String, ttl: u64) {
        self.slots.insert(key, (value, self.now + ttl));
    }
}

/// Runs one fetch-through; returns its result and how often the source was asked.
fn get_or_fetch(
    cache: &mut ExpiringCache,
    key: &str,
    ttl: u64,
    source: &FetchOutcome,
) -> (Result<String, FetchError>, usize) {
    let mut state = GetOrFetch::start(key.to_string(), ttl);
    let mut fetches = 0;
    for _ in 0..10 {
        let event = match state.action() {
            CacheAction::Read { key } => CacheEvent::Cached(cache.get(&key)),
            CacheAction::Fetch => {
                fetches += 1;
                CacheEvent::Fetched(source.clone())
            }
            CacheAction::Store { key, value, ttl } => {
                cache.put(key, value, ttl);
                CacheEvent::Stored
            }
            CacheAction::Deliver(result) => return (result, fetches),
        };
        state = state.step(event);
    }
    panic!("the fetch-through did not end");
}

fn answered(status: u16, body: &str) -> FetchOutcome {
    FetchOutcome::Answered { status, body: body.to_string() }
}

#[test]
fn one_fetch_per_time_to_live() {
    let mut cache = ExpiringCache::new();
    let source = answered(200, "table");

    cache.now = 1000;
    assert_eq!(get_or_fetch(&mut cache, "k", 60, &source), (Ok("table".to_string()), 1));

    cache.now = 1000;
    assert_eq!(get_or_fetch(&mut cache, "k", 60, &source), (Ok("table".to_string()), 0));
    cache.now = 1059;
    assert_eq!(get_or_fetch(&mut cache, "k", 60, &FetchOutcome::Unreachable), (Ok("table".to_string()), 0));

    cache.now = 1060;
    assert_eq!(get_or_fetch(&mut cache, "k", 60, &answered(200, "newer")), (Ok("newer".to_string()), 1));
    cache.now = 1061;
    assert_eq!(get_or_fetch(&mut cache, "k", 60, &source), (Ok("newer".to_string()), 0));
}

#[test]
fn keys_are_cached_apart() {
    let mut cache = ExpiringCache::new();
    assert_eq!(get_or_fetch(&mut cache, "a", 60, &answered(200, "A")), (Ok("A".to_string()), 1));
    assert_eq!(get_or_fetch(&mut cache, "b", 60, &answered(200, "B")), (Ok("B".to_string()), 1));
    assert_eq!(get_or_fetch(&mut cache, "a", 60, &answered(200, "x")), (Ok("A".to_string()), 0));
}

#[test]
fn failed_fetch_is_not_cached() {
    let mut cache = ExpiringCache::new();
    assert_eq!(
        get_or_fetch(&mut cache, "k", 60, &answered(500, "oops")),
        (Err(FetchError::Status(500)), 1)
    );
    assert!(cache.slots.is_empty());
    assert_eq!(
        get_or_fetch(&mut cache, "k", 60, &FetchOutcome::Unreachable),
        (Err(FetchError::Unreachable), 1)
    );
    assert!(cache.slots.is_empty());
    assert_eq!(get_or_fetch(&mut cache, "k", 60, &answered(200, "ok")), (Ok("ok".to_string()), 1));
}

#[test]
fn only_status_200_counts_as_success() {
    for status in [0u16, 199, 201, 204, 301, 404, 500] {
        let mut cache = ExpiringCache::new();
        assert_eq!(
            get_or_fetch(&mut cache, "k", 60, &answered(status, "body")),
            (Err(FetchError::Status(status)), 1)
        );
    }
    assert_eq!(STATUS_OK, 200);
}

#[test]
fn empty_cached_value_counts_as_absent() {
    let mut cache = ExpiringCache::new();
    assert_eq!(get_or_fetch(&mut cache, "k", 60, &answered(200, "")), (Ok(String::new()), 1));
    assert_eq!(cache.get("k"), Some(String::new()));
    assert_eq!(get_or_fetch(&mut cache, "k", 60, &answered(200, "full")), (Ok("full".to_string()), 1));
    assert_eq!(get_or_fetch(&mut cache, "k", 60, &answered(200, "")), (Ok("full".to_string()), 0));
}

#[test]
fn actions_in_order_on_a_miss() {
    let state = GetOrFetch::start("k".to_string(), 21600);
    assert_eq!(state.action(), CacheAction::Read { key: "k".to_string() });
    assert_eq!(state.result(), None);
    let state = state.step(CacheEvent::Cached(None));
    assert_eq!(state.action(), CacheAction::Fetch);
    let state = state.step(CacheEvent::Fetched(answered(200, "doc")));
    assert_eq!(
        state.action(),
        CacheAction::Store { key: "k".to_string(), value: "doc".to_string(), ttl: 21600 }
    );
    assert_eq!(state.result(), None);
    let state = state.step(CacheEvent::Stored);
    assert_eq!(state.action(), CacheAction::Deliver(Ok("doc".to_string())));
    assert_eq!(state.result(), Some(Ok("doc")));
}

#[test]
fn events_that_answer_nothing_change_nothing() {
    let state = GetOrFetch::start("k".to_string(), 1);
    let state = state.step(CacheEvent::Stored);
    let state = state.step(CacheEvent::Fetched(answered(200, "doc")));
    assert_eq!(state.action(), CacheAction::Read { key: "k".to_string() });

    let state = state.step(CacheEvent::Cached(None));
    let state = state.step(CacheEvent::Cached(Some("late".to_string())));
    let state = state.step(CacheEvent::Stored);
    assert_eq!(state.action(), CacheAction::Fetch);

    let state = state.step(CacheEvent::Fetched(FetchOutcome::Unreachable));
    assert_eq!(state.result(), Some(Err(FetchError::Unreachable)));
    let state = state.step(CacheEvent::Cached(Some("late".to_string())));
    let state = state.step(CacheEvent::Fetched(answered(200, "doc")));
    assert_eq!(state.action(), CacheAction::Deliver(Err(FetchError::Unreachable)));
}

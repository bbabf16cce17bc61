//! The cache store: read a cached value, or fetch it from its source and
//! cache it with an expiry.
//!
//! The cache and the source are outside the library, so fetching through is
//! a state machine. [`GetOrFetch::action`] names what has to be done next;
//! the caller does it and hands the outcome to [`GetOrFetch::step`]. The
//! cache alone enforces the expiry: a value past its time to live is simply
//! absent when it is read.

use vstd::prelude::*;
use crate::error::FetchError;

verus! {

/// What came of asking the source.
#[derive(Clone, Debug, PartialEq, Eq)]
pub enum FetchOutcome {
    /// The source answered.
    Answered { status: u16, body: String },
    /// The source could not be reached.
    Unreachable,
}

pub enum FetchOutcomeView {
    Answered { status: u16, body: Seq<char> },
    Unreachable,
}

impl View for FetchOutcome {
    type V = FetchOutcomeView;

    open spec fn view(&self) -> FetchOutcomeView {
        match *self {
            FetchOutcome::Answered { status, body } => FetchOutcomeView::Answered {
                status,
                body: body@,
            },
            FetchOutcome::Unreachable => FetchOutcomeView::Unreachable,
        }
    }
}

/// What the caller reports back.
#[derive(Clone, Debug, PartialEq, Eq)]
pub enum CacheEvent {
    /// The cache was read: the value under the key, if there is one.
    Cached(Option<String>),
    /// The source was asked.
    Fetched(FetchOutcome),
    /// The value was written to the cache.
    Stored,
}

pub enum CacheEventView {
    Cached(Option<Seq<char>>),
    Fetched(FetchOutcomeView),
    Stored,
}

impl View for CacheEvent {
    type V = CacheEventView;

    open spec fn view(&self) -> CacheEventView {
        match *self {
            CacheEvent::Cached(Some(value)) => CacheEventView::Cached(Some(value@)),
            CacheEvent::Cached(None) => CacheEventView::Cached(None),
            CacheEvent::Fetched(outcome) => CacheEventView::Fetched(outcome@),
            CacheEvent::Stored => CacheEventView::Stored,
        }
    }
}

/// What the caller has to do next.
#[derive(Debug, PartialEq, Eq)]
pub enum CacheAction {
    /// Read the cache under `key` and report `Cached`.
    Read { key: String },
    /// Ask the source and report `Fetched`.
    Fetch,
    /// Write `value` under `key`, to expire after `ttl` seconds, and report
    /// `Stored`.
    Store { key: String, value: String, ttl: u64 },
    /// Nothing is left to do: this is the result.
    Deliver(Result<String, FetchError>),
}

pub enum CacheActionView {
    Read { key: Seq<char> },
    Fetch,
    Store { key: Seq<char>, value: Seq<char>, ttl: u64 },
    Deliver(Result<Seq<char>, FetchError>),
}

impl View for CacheAction {
    type V = CacheActionView;

    open spec fn view(&self) -> CacheActionView {
        match *self {
            CacheAction::Read { key } => CacheActionView::Read { key: key@ },
            CacheAction::Fetch => CacheActionView::Fetch,
            CacheAction::Store { key, value, ttl } => CacheActionView::Store {
                key: key@,
                value: value@,
                ttl,
            },
            CacheAction::Deliver(Ok(value)) => CacheActionView::Deliver(Ok(value@)),
            CacheAction::Deliver(Err(e)) => CacheActionView::Deliver(Err(e)),
        }
    }
}

/// How far a fetch-through has come.
pub enum PhaseView {
    /// The cache is being read.
    Reading,
    /// The cache held nothing: the source is being asked.
    Fetching,
    /// The source gave this value: it is being written to the cache.
    Storing(Seq<char>),
    /// The result is known.
    Done(Result<Seq<char>, FetchError>),
}

pub struct GetOrFetchView {
    pub key: Seq<char>,
    pub ttl: u64,
    pub phase: PhaseView,
}

#[derive(Debug)]
enum Phase {
    Reading,
    Fetching,
    Storing(String),
    Done(Result<String, FetchError>),
}

/// One fetch-through of one key.
#[derive(Debug)]
pub struct GetOrFetch {
    key: String,
    ttl: u64,
    phase: Phase,
}

impl View for GetOrFetch {
    type V = GetOrFetchView;

    closed spec fn view(&self) -> GetOrFetchView {
        GetOrFetchView {
            key: self.key@,
            ttl: self.ttl,
            phase: match self.phase {
                Phase::Reading => PhaseView::Reading,
                Phase::Fetching => PhaseView::Fetching,
                Phase::Storing(value) => PhaseView::Storing(value@),
                Phase::Done(Ok(value)) => PhaseView::Done(Ok(value@)),
                Phase::Done(Err(e)) => PhaseView::Done(Err(e)),
            },
        }
    }
}

/// The state in which a fetch-through begins.
pub open spec fn fresh(key: Seq<char>, ttl: u64) -> GetOrFetchView {
    GetOrFetchView { key, ttl, phase: PhaseView::Reading }
}

/// The action that a state waits for.
pub open spec fn pending(state: GetOrFetchView) -> CacheActionView {
    match state.phase {
        PhaseView::Reading => CacheActionView::Read { key: state.key },
        PhaseView::Fetching => CacheActionView::Fetch,
        PhaseView::Storing(value) => CacheActionView::Store {
            key: state.key,
            value,
            ttl: state.ttl,
        },
        PhaseView::Done(result) => CacheActionView::Deliver(result),
    }
}

/// The status with which the source hands out the value.
pub const STATUS_OK: u16 = 200;

/// The phase that follows when `event` answers the pending action. A cached
/// value counts only if it is not empty. An answer of the source counts only
/// with status 200; any other outcome ends the fetch-through with an error and
/// nothing is written. An event that does not answer the pending action
/// changes nothing.
pub open spec fn next_phase(phase: PhaseView, event: CacheEventView) -> PhaseView {
    match (phase, event) {
        (PhaseView::Reading, CacheEventView::Cached(Some(value))) => if value.len() > 0 {
            PhaseView::Done(Ok(value))
        } else {
            PhaseView::Fetching
        },
        (PhaseView::Reading, CacheEventView::Cached(None)) => PhaseView::Fetching,
        (
            PhaseView::Fetching,
            CacheEventView::Fetched(FetchOutcomeView::Answered { status, body }),
        ) => if status == STATUS_OK {
            PhaseView::Storing(body)
        } else {
            PhaseView::Done(Err(FetchError::Status(status)))
        },
        (PhaseView::Fetching, CacheEventView::Fetched(FetchOutcomeView::Unreachable)) => {
            PhaseView::Done(Err(FetchError::Unreachable))
        },
        (PhaseView::Storing(value), CacheEventView::Stored) => PhaseView::Done(Ok(value)),
        _ => phase,
    }
}

pub open spec fn next(state: GetOrFetchView, event: CacheEventView) -> GetOrFetchView {
    GetOrFetchView { key: state.key, ttl: state.ttl, phase: next_phase(state.phase, event) }
}

impl GetOrFetch {
    /// Begins a fetch-through of `key`; a fetched value is cached for `ttl`
    /// seconds.
    pub fn start(key: String, ttl: u64) -> (state: Self)
        ensures
            state@ == fresh(key@, ttl),
    {
        GetOrFetch { key, ttl, phase: Phase::Reading }
    }

    /// What has to be done next.
    pub fn action(&self) -> (action: CacheAction)
        ensures
            action@ == pending(self@),
    {
        match &self.phase {
            Phase::Reading => CacheAction::Read { key: self.key.clone() },
            Phase::Fetching => CacheAction::Fetch,
            Phase::Storing(value) => CacheAction::Store {
                key: self.key.clone(),
                value: value.clone(),
                ttl: self.ttl,
            },
            Phase::Done(Ok(value)) => CacheAction::Deliver(Ok(value.clone())),
            Phase::Done(Err(e)) => CacheAction::Deliver(Err(*e)),
        }
    }

    /// Takes in what came of the pending action.
    pub fn step(self, event: CacheEvent) -> (state: Self)
        ensures
            state@ == next(self@, event@),
    {
        let GetOrFetch { key, ttl, phase } = self;
        let phase = match (phase, event) {
            (Phase::Reading, CacheEvent::Cached(Some(value))) => {
                if value.as_str().is_empty() {
                    Phase::Fetching
                } else {
                    Phase::Done(Ok(value))
                }
            },
            (Phase::Reading, CacheEvent::Cached(None)) => Phase::Fetching,
            (Phase::Fetching, CacheEvent::Fetched(FetchOutcome::Answered { status, body })) => {
                if status == STATUS_OK {
                    Phase::Storing(body)
                } else {
                    Phase::Done(Err(FetchError::Status(status)))
                }
            },
            (Phase::Fetching, CacheEvent::Fetched(FetchOutcome::Unreachable)) => Phase::Done(
                Err(FetchError::Unreachable),
            ),
            (Phase::Storing(value), CacheEvent::Stored) => Phase::Done(Ok(value)),
            (phase, _) => phase,
        };
        GetOrFetch { key, ttl, phase }
    }

    /// The result, once it is known.
    pub fn result(&self) -> (result: Option<Result<&str, FetchError>>)
        ensures
            match result {
                Some(Ok(value)) => self@.phase == PhaseView::Done(Ok(value@)),
                Some(Err(e)) => self@.phase == PhaseView::Done(Err(e)),
                None => !(self@.phase is Done),
            },
    {
        match &self.phase {
            Phase::Done(Ok(value)) => Some(Ok(value.as_str())),
            Phase::Done(Err(e)) => Some(Err(*e)),
            _ => None,
        }
    }
}

/// What a cache holds under a key: a value and the time at which it expires.
pub struct CacheSlot {
    pub value: Seq<char>,
    pub expires: int,
}

/// Reading a cache at the time `now`: a value that has expired is absent.
pub open spec fn cache_read(cache: Map<Seq<char>, CacheSlot>, key: Seq<char>, now: int) -> Option<
    Seq<char>,
> {
    if cache.contains_key(key) && now < cache[key].expires {
        Some(cache[key].value)
    } else {
        None
    }
}

/// Writing a cache at the time `now`: the value expires `ttl` seconds later.
pub open spec fn cache_write(
    cache: Map<Seq<char>, CacheSlot>,
    key: Seq<char>,
    value: Seq<char>,
    ttl: u64,
    now: int,
) -> Map<Seq<char>, CacheSlot> {
    cache.insert(key, CacheSlot { value, expires: now + ttl })
}

/// What a whole fetch-through came to.
pub struct Run {
    /// The cache as the fetch-through left it.
    pub cache: Map<Seq<char>, CacheSlot>,
    pub result: Result<Seq<char>, FetchError>,
    /// How often the source was asked.
    pub fetches: nat,
}

/// The number of actions that a phase is away from the result, at most.
pub open spec fn steps_left(phase: PhaseView) -> nat {
    match phase {
        PhaseView::Reading => 3,
        PhaseView::Fetching => 2,
        PhaseView::Storing(_) => 1,
        PhaseView::Done(_) => 0,
    }
}

/// Carries a fetch-through to its end at the time `now`: each pending action
/// is done on `cache`, or answered by `source`, and its outcome handed back.
pub open spec fn drive(
    state: GetOrFetchView,
    cache: Map<Seq<char>, CacheSlot>,
    now: int,
    source: FetchOutcomeView,
    fetches: nat,
) -> Run
    decreases steps_left(state.phase),
{
    match state.phase {
        PhaseView::Reading => drive(
            next(state, CacheEventView::Cached(cache_read(cache, state.key, now))),
            cache,
            now,
            source,
            fetches,
        ),
        PhaseView::Fetching => drive(
            next(state, CacheEventView::Fetched(source)),
            cache,
            now,
            source,
            fetches + 1,
        ),
        PhaseView::Storing(value) => drive(
            next(state, CacheEventView::Stored),
            cache_write(cache, state.key, value, state.ttl, now),
            now,
            source,
            fetches,
        ),
        PhaseView::Done(result) => Run { cache, result, fetches },
    }
}

/// One whole fetch-through of `key` at the time `now`.
pub open spec fn get_or_fetch(
    cache: Map<Seq<char>, CacheSlot>,
    now: int,
    key: Seq<char>,
    ttl: u64,
    source: FetchOutcomeView,
) -> Run {
    drive(fresh(key, ttl), cache, now, source, 0)
}

/// A fetch-through that finds a non-empty value in the cache returns it, asks
/// the source nothing and leaves the cache as it is.
pub proof fn lemma_hit_fetches_nothing(
    cache: Map<Seq<char>, CacheSlot>,
    now: int,
    key: Seq<char>,
    ttl: u64,
    source: FetchOutcomeView,
)
    requires
        cache_read(cache, key, now) matches Some(value) && value.len() > 0,
    ensures
        get_or_fetch(cache, now, key, ttl, source) == (Run {
            cache,
            result: Ok(cache_read(cache, key, now)->0),
            fetches: 0,
        }),
{
    reveal_with_fuel(drive, 3);
}

/// A fetch-through that finds nothing in the cache, or an empty value, asks
/// the source exactly once. What the source hands out with status 200 is
/// written to the cache and returned; on any other outcome the cache is left
/// as it is.
pub proof fn lemma_miss_fetches_once(
    cache: Map<Seq<char>, CacheSlot>,
    now: int,
    key: Seq<char>,
    ttl: u64,
    source: FetchOutcomeView,
)
    requires
        cache_read(cache, key, now) matches Some(value) ==> value.len() == 0,
    ensures
        get_or_fetch(cache, now, key, ttl, source) == (match source {
            FetchOutcomeView::Answered { status, body } => if status == STATUS_OK {
                Run { cache: cache_write(cache, key, body, ttl, now), result: Ok(body), fetches: 1 }
            } else {
                Run { cache, result: Err(FetchError::Status(status)), fetches: 1 }
            },
            FetchOutcomeView::Unreachable => Run {
                cache,
                result: Err(FetchError::Unreachable),
                fetches: 1,
            },
        }),
{
    reveal_with_fuel(drive, 5);
}

/// On a cache that has nothing under the key, the first fetch-through asks
/// the source once. While the value that it cached has not expired, a second
/// one asks the source nothing and returns the same value. Once the value
/// has expired, a third one asks the source once more. The source must have
/// handed out a value that is not empty: an empty one is cached, but counts
/// as absent when it is read.
pub proof fn lemma_fetches_once_per_ttl(
    cache: Map<Seq<char>, CacheSlot>,
    key: Seq<char>,
    ttl: u64,
    body: Seq<char>,
    t0: int,
    t1: int,
    t2: int,
    second_source: FetchOutcomeView,
    third_source: FetchOutcomeView,
)
    requires
        !cache.contains_key(key),
        body.len() > 0,
        t0 <= t1 < t0 + ttl,
        t0 + ttl <= t2,
    ensures
        ({
            let first = get_or_fetch(
                cache,
                t0,
                key,
                ttl,
                FetchOutcomeView::Answered { status: STATUS_OK, body },
            );
            let second = get_or_fetch(first.cache, t1, key, ttl, second_source);
            let third = get_or_fetch(second.cache, t2, key, ttl, third_source);
            &&& first.fetches == 1
            &&& first.result == Ok::<Seq<char>, FetchError>(body)
            &&& second.fetches == 0
            &&& second.result == Ok::<Seq<char>, FetchError>(body)
            &&& third.fetches == 1
        }),
{
    let source = FetchOutcomeView::Answered { status: STATUS_OK, body };
    lemma_miss_fetches_once(cache, t0, key, ttl, source);
    let first = get_or_fetch(cache, t0, key, ttl, source);
    lemma_hit_fetches_nothing(first.cache, t1, key, ttl, second_source);
    lemma_miss_fetches_once(first.cache, t2, key, ttl, third_source);
}

} // verus!

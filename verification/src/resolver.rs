//! The endpoint resolver: from a selector to an endpoint.
//!
//! A selector that begins with two ASCII letters is a country code. It is
//! looked up in the endpoint table, which is had through the cache store, and
//! one of the country's endpoints is chosen by a random byte. Any other
//! selector is read as an endpoint itself and touches neither cache nor
//! table. The order matters: a host name that begins with two letters is
//! taken for a country code.

use vstd::prelude::*;
use vstd::pervasive::unreached;
use crate::cache::{
    cache_read, cache_write, drive, get_or_fetch, next_phase, CacheAction, CacheEvent,
    CacheEventView, CacheSlot, FetchOutcomeView, GetOrFetch, PhaseView,
};
use crate::endpoint::{
    decimal_value, is_digit, is_separator, lemma_literal_parses, parse_endpoint, parse_literal,
    Endpoint, EndpointView, FormatError,
};
use crate::error::{selector_error, SelectionError};
use crate::selector::{
    country_key, country_key_of, is_country_selector, lemma_country_key_ignores_case,
    names_country,
};
use crate::text::same_ignoring_ascii_case;
use crate::table::{
    document_table, parse_entry, pick, select_in_table, selection_view, EndpointTable,
};
use vstd::utf8::is_ascii_chars;

verus! {

#[verifier::external_type_specification]
#[verifier::external_body]
pub struct ExEntropyError(getrandom::Error);

/// The key under which the table document is cached.
pub const TABLE_KEY: &'static str = "proxy_kv";

/// How long a fetched table document stays cached: six hours, in seconds.
pub const TABLE_TTL: u64 = 21600;

/// `getrandom::getrandom` on a buffer of four bytes. Nothing is known of the
/// bytes that it fills in, nor of whether it succeeds.
#[verifier::external_body]
fn system_random() -> (res: Result<[u8; 4], getrandom::Error>) {
    let mut buffer = [0u8; 4];
    getrandom::getrandom(&mut buffer)?;
    Ok(buffer)
}

/// The endpoint that `random` chooses for the country `code` in a table
/// document.
pub open spec fn select_in_document(document: Seq<char>, code: Seq<char>, random: u8) -> Result<
    EndpointView,
    SelectionError,
> {
    match document_table(document) {
        None => Err(SelectionError::MalformedTable),
        Some(table) => select_in_table(table, code, random),
    }
}

/// The document has endpoints for the country, so that one has to be chosen.
pub open spec fn has_choice(document: Seq<char>, code: Seq<char>) -> bool {
    document_table(document) matches Some(table) && table.contains_key(code) && table[code].len()
        > 0
}

/// What a resolution from a document may come to when the system supplies
/// the random byte: what some byte chooses, or, where a byte was needed and
/// the system gave none, `NoEntropy`.
pub open spec fn some_choice(
    document: Seq<char>,
    code: Seq<char>,
    outcome: Result<EndpointView, SelectionError>,
) -> bool {
    ||| exists|random: u8| outcome == select_in_document(document, code, random)
    ||| has_choice(document, code) && outcome == Err::<EndpointView, SelectionError>(
        SelectionError::NoEntropy,
    )
}

/// Where the random byte comes from.
enum Chooser {
    Given(u8),
    System,
}

fn choose_in_document(code: &str, document: &str, chooser: Chooser) -> (res: Result<
    Endpoint,
    SelectionError,
>)
    ensures
        match chooser {
            Chooser::Given(random) => selection_view(res) == select_in_document(
                document@,
                code@,
                random,
            ),
            Chooser::System => some_choice(document@, code@, selection_view(res)),
        },
{
    let table = match EndpointTable::parse(document) {
        Ok(table) => table,
        Err(e) => {
            assert(selection_view(Err(e)) == select_in_document(document@, code@, 0));
            return Err(e);
        },
    };
    let list = match table.candidates(code) {
        Some(list) => list,
        None => {
            assert(selection_view(Err(SelectionError::NotFound)) == select_in_document(
                document@,
                code@,
                0,
            ));
            return Err(SelectionError::NotFound);
        },
    };
    if list.len() == 0 {
        assert(selection_view(Err(SelectionError::NotFound)) == select_in_document(
            document@,
            code@,
            0,
        ));
        return Err(SelectionError::NotFound);
    }
    let random = match chooser {
        Chooser::Given(random) => random,
        Chooser::System => match system_random() {
            Ok(bytes) => bytes[0],
            Err(_) => {
                return Err(SelectionError::NoEntropy);
            },
        },
    };
    match pick(list, random) {
        Some(entry) => {
            let res = parse_entry(entry.as_str());
            assert(selection_view(res) == select_in_document(document@, code@, random));
            res
        },
        None => Err(SelectionError::NotFound),
    }
}

/// Resolves a country code in a table document, with `random` to choose among
/// the country's endpoints.
pub fn resolve_in_document(code: &str, document: &str, random: u8) -> (res: Result<
    Endpoint,
    SelectionError,
>)
    ensures
        selection_view(res) == select_in_document(document@, code@, random),
{
    choose_in_document(code, document, Chooser::Given(random))
}

/// Resolves a country code in a table document. Where the country has
/// endpoints, the first of four bytes from the system's random source
/// chooses among them.
pub fn resolve_in_document_at_random(code: &str, document: &str) -> (res: Result<
    Endpoint,
    SelectionError,
>)
    ensures
        some_choice(document@, code@, selection_view(res)),
{
    choose_in_document(code, document, Chooser::System)
}

/// Reads a selector that names no country as an endpoint.
pub fn resolve_literal(selector: &str) -> (res: Result<Endpoint, SelectionError>)
    ensures
        selection_view(res) == literal_selection(selector@),
{
    match parse_endpoint(selector) {
        Ok(e) => Ok(e),
        Err(FormatError::Malformed) => Err(SelectionError::Unparseable),
        Err(FormatError::PortRange) => Err(SelectionError::PortRange),
    }
}

/// What a selector that names no country resolves to.
pub open spec fn literal_selection(selector: Seq<char>) -> Result<EndpointView, SelectionError> {
    match parse_literal(selector) {
        Ok(e) => Ok(e),
        Err(e) => Err(selector_error(e)),
    }
}

/// How far a resolution has come.
pub enum ResolutionView {
    /// The cache is being read for the table document.
    Reading { code: Seq<char> },
    /// The table document is being fetched from its source.
    Fetching { code: Seq<char> },
    /// The fetched table document is being written to the cache.
    Storing { code: Seq<char>, document: Seq<char> },
    /// The resolution has ended.
    Finished(Result<EndpointView, SelectionError>),
}

/// What the caller has to do next.
#[derive(Debug, PartialEq, Eq)]
pub enum ResolveAction {
    /// Read the cache under `key` and report `Cached`.
    ReadCache { key: String },
    /// Fetch the table document from its source and report `Fetched`.
    FetchTable,
    /// Write `document` to the cache under `key`, to expire after `ttl`
    /// seconds, and report `Stored`.
    StoreTable { key: String, document: String, ttl: u64 },
    /// Nothing is left to do: this is the resolution.
    Finish(Result<Endpoint, SelectionError>),
}

pub enum ResolveActionView {
    ReadCache { key: Seq<char> },
    FetchTable,
    StoreTable { key: Seq<char>, document: Seq<char>, ttl: u64 },
    Finish(Result<EndpointView, SelectionError>),
}

impl View for ResolveAction {
    type V = ResolveActionView;

    open spec fn view(&self) -> ResolveActionView {
        match *self {
            ResolveAction::ReadCache { key } => ResolveActionView::ReadCache { key: key@ },
            ResolveAction::FetchTable => ResolveActionView::FetchTable,
            ResolveAction::StoreTable { key, document, ttl } => ResolveActionView::StoreTable {
                key: key@,
                document: document@,
                ttl,
            },
            ResolveAction::Finish(res) => ResolveActionView::Finish(selection_view(res)),
        }
    }
}

/// The state in which the resolution of a selector begins. One that names no
/// country has ended at once.
pub open spec fn begin(selector: Seq<char>) -> ResolutionView {
    if names_country(selector) {
        ResolutionView::Reading { code: country_key(selector) }
    } else {
        ResolutionView::Finished(literal_selection(selector))
    }
}

/// The action that a state waits for.
pub open spec fn awaited(state: ResolutionView) -> ResolveActionView {
    match state {
        ResolutionView::Reading { .. } => ResolveActionView::ReadCache { key: TABLE_KEY@ },
        ResolutionView::Fetching { .. } => ResolveActionView::FetchTable,
        ResolutionView::Storing { document, .. } => ResolveActionView::StoreTable {
            key: TABLE_KEY@,
            document,
            ttl: TABLE_TTL,
        },
        ResolutionView::Finished(res) => ResolveActionView::Finish(res),
    }
}

/// Where the fetch-through of the table document stands in a state that has
/// not ended.
pub open spec fn table_phase(state: ResolutionView) -> PhaseView {
    match state {
        ResolutionView::Reading { .. } => PhaseView::Reading,
        ResolutionView::Fetching { .. } => PhaseView::Fetching,
        ResolutionView::Storing { document, .. } => PhaseView::Storing(document),
        ResolutionView::Finished(_) => PhaseView::Reading,
    }
}

/// What a resolution for `code` comes to when the fetch-through of the table
/// document stands at `phase`, with `outcome` for what the document gives
/// once it is had.
pub open spec fn at_phase(
    code: Seq<char>,
    phase: PhaseView,
    outcome: spec_fn(Seq<char>) -> Result<EndpointView, SelectionError>,
) -> ResolutionView {
    match phase {
        PhaseView::Reading => ResolutionView::Reading { code },
        PhaseView::Fetching => ResolutionView::Fetching { code },
        PhaseView::Storing(document) => ResolutionView::Storing { code, document },
        PhaseView::Done(Ok(document)) => ResolutionView::Finished(outcome(document)),
        PhaseView::Done(Err(e)) => ResolutionView::Finished(Err(SelectionError::Fetch(e))),
    }
}

/// The country code that a state is resolving.
pub open spec fn code_of(state: ResolutionView) -> Seq<char> {
    match state {
        ResolutionView::Reading { code } => code,
        ResolutionView::Fetching { code } => code,
        ResolutionView::Storing { code, .. } => code,
        ResolutionView::Finished(_) => Seq::empty(),
    }
}

/// The state that follows on `event`, with `random` to choose in the table.
/// The table document is fetched through the cache as
/// [`next_phase`] says. It is read only when the fetch-through has ended, so a
/// fetched document is cached whatever it holds. A resolution that has ended
/// stays as it is.
pub open spec fn follow(state: ResolutionView, event: CacheEventView, random: u8) -> ResolutionView {
    match state {
        ResolutionView::Finished(_) => state,
        _ => at_phase(
            code_of(state),
            next_phase(table_phase(state), event),
            |document: Seq<char>| select_in_document(document, code_of(state), random),
        ),
    }
}

/// The states that may follow on `event` when the system supplies the random
/// byte.
pub open spec fn may_follow(
    state: ResolutionView,
    event: CacheEventView,
    after: ResolutionView,
) -> bool {
    match state {
        ResolutionView::Finished(_) => after == state,
        _ => match next_phase(table_phase(state), event) {
            PhaseView::Done(Ok(document)) => after matches ResolutionView::Finished(outcome)
                && some_choice(document, code_of(state), outcome),
            phase => after == at_phase(
                code_of(state),
                phase,
                |document: Seq<char>| Err::<EndpointView, SelectionError>(SelectionError::NotFound),
            ),
        },
    }
}

#[derive(Debug)]
enum Stage {
    Table { code: String, cache: GetOrFetch },
    Finished(Result<Endpoint, SelectionError>),
}

/// The resolution of one selector.
#[derive(Debug)]
pub struct Resolution {
    stage: Stage,
}

impl View for Resolution {
    type V = ResolutionView;

    closed spec fn view(&self) -> ResolutionView {
        match self.stage {
            Stage::Table { code, cache } => match cache@.phase {
                PhaseView::Reading => ResolutionView::Reading { code: code@ },
                PhaseView::Fetching => ResolutionView::Fetching { code: code@ },
                PhaseView::Storing(document) => ResolutionView::Storing { code: code@, document },
                PhaseView::Done(_) => ResolutionView::Reading { code: code@ },
            },
            Stage::Finished(res) => ResolutionView::Finished(selection_view(res)),
        }
    }
}

impl Resolution {
    #[verifier::type_invariant]
    spec fn well_formed(self) -> bool {
        self.stage matches Stage::Table { cache, .. } ==> {
            &&& cache@.key == TABLE_KEY@
            &&& cache@.ttl == TABLE_TTL
            &&& !(cache@.phase is Done)
        }
    }

    /// Begins the resolution of `selector`.
    pub fn start(selector: &str) -> (state: Self)
        ensures
            state@ == begin(selector@),
    {
        if is_country_selector(selector) {
            let code = country_key_of(selector);
            let cache = GetOrFetch::start(TABLE_KEY.to_owned(), TABLE_TTL);
            Resolution { stage: Stage::Table { code, cache } }
        } else {
            Resolution { stage: Stage::Finished(resolve_literal(selector)) }
        }
    }

    /// What has to be done next.
    pub fn action(&self) -> (action: ResolveAction)
        ensures
            action@ == awaited(self@),
    {
        proof {
            use_type_invariant(self);
        }
        match &self.stage {
            Stage::Table { cache, .. } => match cache.action() {
                CacheAction::Read { key } => ResolveAction::ReadCache { key },
                CacheAction::Fetch => ResolveAction::FetchTable,
                CacheAction::Store { key, value, ttl } => ResolveAction::StoreTable {
                    key,
                    document: value,
                    ttl,
                },
                CacheAction::Deliver(_) => unreached(),
            },
            Stage::Finished(Ok(e)) => ResolveAction::Finish(Ok(e.clone())),
            Stage::Finished(Err(e)) => ResolveAction::Finish(Err(*e)),
        }
    }

    /// The resolution, once it has ended.
    pub fn outcome(&self) -> (outcome: Option<&Result<Endpoint, SelectionError>>)
        ensures
            match outcome {
                Some(res) => self@ == ResolutionView::Finished(selection_view(*res)),
                None => !(self@ is Finished),
            },
    {
        match &self.stage {
            Stage::Table { .. } => None,
            Stage::Finished(res) => Some(res),
        }
    }

    fn advance(self, event: CacheEvent, chooser: Chooser) -> (state: Self)
        ensures
            match chooser {
                Chooser::Given(random) => state@ == follow(self@, event@, random),
                Chooser::System => may_follow(self@, event@, state@),
            },
    {
        proof {
            use_type_invariant(&self);
        }
        match self.stage {
            Stage::Finished(res) => Resolution { stage: Stage::Finished(res) },
            Stage::Table { code, cache } => {
                let cache = cache.step(event);
                let stage = match cache.result() {
                    None => Stage::Table { code, cache },
                    Some(Err(e)) => Stage::Finished(Err(SelectionError::Fetch(e))),
                    Some(Ok(document)) => Stage::Finished(
                        choose_in_document(code.as_str(), document, chooser),
                    ),
                };
                Resolution { stage }
            },
        }
    }

    /// Takes in what came of the pending action, with `random` to choose
    /// among a country's endpoints.
    pub fn step_with(self, event: CacheEvent, random: u8) -> (state: Self)
        ensures
            state@ == follow(self@, event@, random),
    {
        self.advance(event, Chooser::Given(random))
    }

    /// Takes in what came of the pending action. Where an endpoint has to be
    /// chosen, the system's random source supplies the byte.
    pub fn step(self, event: CacheEvent) -> (state: Self)
        ensures
            may_follow(self@, event@, state@),
    {
        self.advance(event, Chooser::System)
    }
}

/// What a whole resolution came to.
pub struct ResolvedRun {
    /// The cache as the resolution left it.
    pub cache: Map<Seq<char>, CacheSlot>,
    pub outcome: Result<EndpointView, SelectionError>,
    /// How often the table source was asked.
    pub fetches: nat,
}

/// What a selector resolves to at the time `now`, on this cache, with
/// `source` for what the table source would answer and `random` to choose in
/// the table.
pub open spec fn resolve(
    selector: Seq<char>,
    cache: Map<Seq<char>, CacheSlot>,
    now: int,
    source: FetchOutcomeView,
    random: u8,
) -> ResolvedRun {
    if names_country(selector) {
        let table = get_or_fetch(cache, now, TABLE_KEY@, TABLE_TTL, source);
        ResolvedRun {
            cache: table.cache,
            outcome: match table.result {
                Ok(document) => select_in_document(document, country_key(selector), random),
                Err(e) => Err(SelectionError::Fetch(e)),
            },
            fetches: table.fetches,
        }
    } else {
        ResolvedRun { cache, outcome: literal_selection(selector), fetches: 0 }
    }
}

/// The number of actions that a state is away from its end, at most.
pub open spec fn actions_left(state: ResolutionView) -> nat {
    match state {
        ResolutionView::Reading { .. } => 3,
        ResolutionView::Fetching { .. } => 2,
        ResolutionView::Storing { .. } => 1,
        ResolutionView::Finished(_) => 0,
    }
}

/// Carries a resolution to its end at the time `now`: each awaited action is
/// done on `cache`, or answered by `source`, and its outcome handed back.
pub open spec fn run(
    state: ResolutionView,
    cache: Map<Seq<char>, CacheSlot>,
    now: int,
    source: FetchOutcomeView,
    random: u8,
    fetches: nat,
) -> ResolvedRun
    decreases actions_left(state),
{
    match state {
        ResolutionView::Reading { .. } => run(
            follow(state, CacheEventView::Cached(cache_read(cache, TABLE_KEY@, now)), random),
            cache,
            now,
            source,
            random,
            fetches,
        ),
        ResolutionView::Fetching { .. } => run(
            follow(state, CacheEventView::Fetched(source), random),
            cache,
            now,
            source,
            random,
            fetches + 1,
        ),
        ResolutionView::Storing { document, .. } => run(
            follow(state, CacheEventView::Stored, random),
            cache_write(cache, TABLE_KEY@, document, TABLE_TTL, now),
            now,
            source,
            random,
            fetches,
        ),
        ResolutionView::Finished(outcome) => ResolvedRun { cache, outcome, fetches },
    }
}

/// Doing what the resolution asks for, action by action, resolves the
/// selector: the state machine carried to its end comes to what [`resolve`]
/// says.
pub proof fn lemma_run_resolves(
    selector: Seq<char>,
    cache: Map<Seq<char>, CacheSlot>,
    now: int,
    source: FetchOutcomeView,
    random: u8,
)
    ensures
        run(begin(selector), cache, now, source, random, 0) == resolve(
            selector,
            cache,
            now,
            source,
            random,
        ),
{
    reveal_with_fuel(run, 5);
    reveal_with_fuel(drive, 5);
}

/// A selector that names no country is resolved from its own text: the cache
/// is neither read nor written and the table source is not asked, whether or
/// not the selector is an endpoint.
pub proof fn lemma_only_countries_touch_the_cache(
    selector: Seq<char>,
    cache: Map<Seq<char>, CacheSlot>,
    now: int,
    source: FetchOutcomeView,
    random: u8,
)
    requires
        !names_country(selector),
    ensures
        begin(selector) is Finished,
        awaited(begin(selector)) is Finish,
        resolve(selector, cache, now, source, random) == (ResolvedRun {
            cache,
            outcome: literal_selection(selector),
            fetches: 0,
        }),
{
}

/// A selector that is a host, a separator and the digits of a port in
/// 1..=65535 resolves at once to that host and port, and nothing is asked of
/// the cache. The selector must not begin with two ASCII letters, which would
/// make it a country code, and its host must hold no line feed.
pub proof fn lemma_literal_selector_resolves(host: Seq<char>, separator: char, digits: Seq<char>)
    requires
        host.len() > 0,
        forall|j: int| 0 <= j < host.len() ==> #[trigger] host[j] != '\n',
        is_separator(separator),
        1 <= digits.len() <= 5,
        forall|j: int| 0 <= j < digits.len() ==> is_digit(#[trigger] digits[j]),
        1 <= decimal_value(digits) <= 65535,
        !names_country(host + seq![separator] + digits),
    ensures
        begin(host + seq![separator] + digits) == ResolutionView::Finished(
            Ok(EndpointView { host, port: decimal_value(digits) as int }),
        ),
        awaited(begin(host + seq![separator] + digits)) == ResolveActionView::Finish(
            Ok(EndpointView { host, port: decimal_value(digits) as int }),
        ),
        forall|cache: Map<Seq<char>, CacheSlot>, now: int, source: FetchOutcomeView, random: u8|
            #[trigger] resolve(host + seq![separator] + digits, cache, now, source, random) == (
            ResolvedRun {
                cache,
                outcome: Ok(EndpointView { host, port: decimal_value(digits) as int }),
                fetches: 0,
            }),
{
    lemma_literal_parses(host, separator, digits);
}

/// A selector that names a country never ends at once: its resolution begins
/// by reading the cache, whatever the case of its letters. Two ASCII
/// selectors that differ only in case begin in the same state, and resolve
/// to the same.
pub proof fn lemma_country_selector_ignores_case(a: Seq<char>, b: Seq<char>)
    requires
        is_ascii_chars(a),
        is_ascii_chars(b),
        same_ignoring_ascii_case(a, b),
        names_country(a),
    ensures
        names_country(b),
        begin(a) == begin(b),
        begin(a) is Reading,
        forall|cache: Map<Seq<char>, CacheSlot>, now: int, source: FetchOutcomeView, random: u8|
            #[trigger] resolve(a, cache, now, source, random) == resolve(
                b,
                cache,
                now,
                source,
                random,
            ),
{
    lemma_country_key_ignores_case(a, b);
}

/// A country that the table does not have, or for which it has an empty
/// list, is not found: whatever the random byte, and also when the system
/// supplies it, for then none is drawn.
pub proof fn lemma_unknown_country_not_found(
    document: Seq<char>,
    code: Seq<char>,
    outcome: Result<EndpointView, SelectionError>,
)
    requires
        document_table(document) matches Some(table) && (!table.contains_key(code)
            || table[code].len() == 0),
        some_choice(document, code, outcome),
    ensures
        outcome == Err::<EndpointView, SelectionError>(SelectionError::NotFound),
        forall|random: u8| #[trigger]
            select_in_document(document, code, random) == Err::<EndpointView, SelectionError>(
                SelectionError::NotFound,
            ),
{
}

/// A selector that names a country which the table does not have, or for
/// which it has an empty list, resolves to `NotFound`, wherever the table
/// document came from.
pub proof fn lemma_unknown_country_resolves_to_not_found(
    selector: Seq<char>,
    cache: Map<Seq<char>, CacheSlot>,
    now: int,
    source: FetchOutcomeView,
    random: u8,
)
    requires
        names_country(selector),
        get_or_fetch(cache, now, TABLE_KEY@, TABLE_TTL, source).result matches Ok(document)
            && document_table(document) matches Some(table) && (!table.contains_key(
            country_key(selector),
        ) || table[country_key(selector)].len() == 0),
    ensures
        resolve(selector, cache, now, source, random).outcome == Err::<
            EndpointView,
            SelectionError,
        >(SelectionError::NotFound),
{
}

/// A resolution that has ended stays as it is, whatever is reported to it.
pub proof fn lemma_finished_stays(state: ResolutionView, event: CacheEventView, random: u8)
    requires
        state is Finished,
    ensures
        follow(state, event, random) == state,
        forall|after: ResolutionView| may_follow(state, event, after) ==> after == state,
{
}

} // verus!

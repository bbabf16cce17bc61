//! The endpoint table: for each country code, the endpoints to choose from.
//!
//! The table comes as a JSON object whose keys are country codes and whose
//! values are lists of endpoints in their text form. Where the document
//! names a code twice, the later list stands.

use vstd::prelude::*;
use std::collections::HashMap;
use vstd::arithmetic::div_mod::{
    lemma_fundamental_div_mod, lemma_mod_multiples_vanish, lemma_small_mod,
};
use crate::endpoint::{parse_endpoint, parse_literal, Endpoint, EndpointView, FormatError};
use crate::error::{entry_error, SelectionError};

verus! {

#[verifier::external_type_specification]
#[verifier::external_body]
pub struct ExJsonError(serde_json::Error);

/// One line of the table.
#[derive(Debug)]
pub struct TableEntry {
    pub code: String,
    pub endpoints: Vec<String>,
}

pub struct TableEntryView {
    pub code: Seq<char>,
    pub endpoints: Seq<Seq<char>>,
}

impl View for TableEntry {
    type V = TableEntryView;

    open spec fn view(&self) -> TableEntryView {
        TableEntryView { code: self.code@, endpoints: self.endpoints.deep_view() }
    }
}

pub open spec fn entry_views(entries: Seq<TableEntry>) -> Seq<TableEntryView> {
    Seq::new(entries.len(), |i: int| entries[i]@)
}

/// The table that comes of inserting the entries one after the other.
pub open spec fn table_of(entries: Seq<TableEntryView>) -> Map<Seq<char>, Seq<Seq<char>>>
    decreases entries.len(),
{
    if entries.len() == 0 {
        Map::empty()
    } else {
        table_of(entries.drop_last()).insert(entries.last().code, entries.last().endpoints)
    }
}

/// The table that a document holds, or `None` where the document is not a
/// JSON object whose values are all lists of strings.
pub uninterp spec fn document_table(document: Seq<char>) -> Option<Map<Seq<char>, Seq<Seq<char>>>>;

/// `serde_json::from_str` at the type `HashMap<String, Vec<String>>`. It
/// fails or succeeds on the document alone. The map that it returns is handed
/// out entry by entry, each key once, in no stated order.
#[verifier::external_body]
fn decode_table(document: &str) -> (res: Result<Vec<TableEntry>, serde_json::Error>)
    ensures
        match res {
            Ok(entries) => document_table(document@) == Some(table_of(entry_views(entries@))),
            Err(_) => document_table(document@) is None,
        },
{
    let parsed: HashMap<String, Vec<String>> = serde_json::from_str(document)?;
    Ok(parsed.into_iter().map(|(code, endpoints)| TableEntry { code, endpoints }).collect())
}

/// The endpoint table.
#[derive(Debug)]
pub struct EndpointTable {
    entries: Vec<TableEntry>,
}

impl View for EndpointTable {
    type V = Map<Seq<char>, Seq<Seq<char>>>;

    closed spec fn view(&self) -> Map<Seq<char>, Seq<Seq<char>>> {
        table_of(entry_views(self.entries@))
    }
}

impl EndpointTable {
    /// The table without any country.
    pub fn new() -> (table: Self)
        ensures
            table@ == Map::<Seq<char>, Seq<Seq<char>>>::empty(),
    {
        EndpointTable { entries: Vec::new() }
    }

    /// Sets the list of a country, in place of the one it had.
    pub fn insert(&mut self, code: String, endpoints: Vec<String>)
        ensures
            final(self)@ == old(self)@.insert(code@, endpoints.deep_view()),
    {
        let entry = TableEntry { code, endpoints };
        self.entries.push(entry);
        proof {
            let views = entry_views(self.entries@);
            assert(views.drop_last() =~= entry_views(old(self).entries@));
        }
    }

    /// Reads the table from its document.
    pub fn parse(document: &str) -> (res: Result<Self, SelectionError>)
        ensures
            match res {
                Ok(table) => document_table(document@) == Some(table@),
                Err(e) => e == SelectionError::MalformedTable && document_table(document@) is None,
            },
    {
        match decode_table(document) {
            Ok(entries) => Ok(EndpointTable { entries }),
            Err(_) => Err(SelectionError::MalformedTable),
        }
    }

    fn find(&self, code: &String) -> (found: Option<&Vec<String>>)
        ensures
            match found {
                Some(list) => self@.contains_key(code@) && list.deep_view() == self@[code@],
                None => !self@.contains_key(code@),
            },
    {
        let ghost views = entry_views(self.entries@);
        let mut i = self.entries.len();
        assert(views.take(i as int) =~= views);
        while i > 0
            invariant
                i <= self.entries.len(),
                views == entry_views(self.entries@),
                self@.contains_key(code@) == table_of(views.take(i as int)).contains_key(code@),
                self@.contains_key(code@) ==> self@[code@] == table_of(views.take(i as int))[code@],
            decreases i,
        {
            i -= 1;
            proof {
                let upto = views.take(i + 1);
                assert(upto.drop_last() =~= views.take(i as int));
                assert(upto.last() == self.entries@[i as int]@);
            }
            if self.entries[i].code == *code {
                return Some(&self.entries[i].endpoints);
            }
        }
        None
    }

    /// The list of a country, if the table has one.
    pub fn candidates(&self, code: &str) -> (found: Option<&Vec<String>>)
        ensures
            match found {
                Some(list) => self@.contains_key(code@) && list.deep_view() == self@[code@],
                None => !self@.contains_key(code@),
            },
    {
        let key = code.to_owned();
        self.find(&key)
    }
}

/// The index that a random byte chooses in a list of `len` entries.
pub open spec fn pick_index(random: u8, len: nat) -> int {
    random as int % len as int
}

/// The entry that a random byte chooses: the one at the byte's value modulo
/// the length of the list. `None` where the list is empty.
pub fn pick(candidates: &Vec<String>, random: u8) -> (entry: Option<&String>)
    ensures
        match entry {
            Some(e) => candidates.len() > 0 && e@ == candidates.deep_view()[pick_index(
                random,
                candidates.len() as nat,
            )],
            None => candidates.len() == 0,
        },
{
    let len = candidates.len();
    if len == 0 {
        None
    } else {
        let index = (random as usize) % len;
        Some(&candidates[index])
    }
}

/// The endpoint that `random` chooses for the country `code`.
pub open spec fn select_in_table(
    table: Map<Seq<char>, Seq<Seq<char>>>,
    code: Seq<char>,
    random: u8,
) -> Result<EndpointView, SelectionError> {
    if !table.contains_key(code) || table[code].len() == 0 {
        Err(SelectionError::NotFound)
    } else {
        match parse_literal(table[code][pick_index(random, table[code].len())]) {
            Ok(e) => Ok(e),
            Err(e) => Err(entry_error(e)),
        }
    }
}

/// The view of a resolution.
pub open spec fn selection_view(res: Result<Endpoint, SelectionError>) -> Result<
    EndpointView,
    SelectionError,
> {
    match res {
        Ok(e) => Ok(e@),
        Err(e) => Err(e),
    }
}

/// Reads a chosen table entry as an endpoint.
pub fn parse_entry(entry: &str) -> (res: Result<Endpoint, SelectionError>)
    ensures
        selection_view(res) == (match parse_literal(entry@) {
            Ok(e) => Ok::<EndpointView, SelectionError>(e),
            Err(e) => Err::<EndpointView, SelectionError>(entry_error(e)),
        }),
{
    match parse_endpoint(entry) {
        Ok(e) => Ok(e),
        Err(FormatError::Malformed) => Err(SelectionError::MalformedEntry),
        Err(FormatError::PortRange) => Err(SelectionError::PortRange),
    }
}

/// Resolves a country code in the table, with `random` to choose among the
/// country's endpoints.
pub fn resolve_in_table(table: &EndpointTable, code: &str, random: u8) -> (res: Result<
    Endpoint,
    SelectionError,
>)
    ensures
        selection_view(res) == select_in_table(table@, code@, random),
{
    match table.candidates(code) {
        None => Err(SelectionError::NotFound),
        Some(list) => match pick(list, random) {
            None => Err(SelectionError::NotFound),
            Some(entry) => parse_entry(entry.as_str()),
        },
    }
}

/// The bytes that choose the entry `index` of a list are `index`, `index +
/// len`, `index + 2 * len` and so on. Where `len` divides 256 these are
/// `256 / len` bytes for every entry, so a uniform byte chooses uniformly.
pub proof fn lemma_pick_spreads_evenly(len: nat, index: int, random: u8)
    requires
        len > 0,
        256int % (len as int) == 0,
        0 <= index < len,
    ensures
        pick_index(random, len) == index <==> exists|k: int|
            0 <= k < 256int / (len as int) && random == index + #[trigger] (k * len),
{
    let n = len as int;
    let r = random as int;
    lemma_fundamental_div_mod(r, n);
    lemma_fundamental_div_mod(256, n);
    if r % n == index {
        let k = r / n;
        assert(k * n == n * k) by (nonlinear_arith);
        assert(0 <= k < 256int / n) by (nonlinear_arith)
            requires
                0 <= r < 256,
                n > 0,
                r == n * k + r % n,
                0 <= r % n < n,
                256 == n * (256int / n),
        ;
        assert(0 <= k < 256int / n && random == index + k * len);
    }
    if exists|k: int| 0 <= k < 256int / n && random == index + #[trigger] (k * len) {
        let k = choose|k: int| 0 <= k < 256int / n && random == index + #[trigger] (k * len);
        lemma_mod_multiples_vanish(k, index, n);
        lemma_small_mod(index as nat, len);
        assert(k * n + index == index + k * len);
    }
}

} // verus!

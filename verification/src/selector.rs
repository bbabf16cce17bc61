//! Selectors: what a client sends to name its upstream endpoint.
//!
//! A selector that begins with two ASCII letters names a country; it is
//! uppercased as a whole and looked up in the endpoint table. Any other
//! selector is read as an endpoint in its text form.

use vstd::prelude::*;
use vstd::utf8::is_ascii_chars;
use crate::text::{
    ascii_upper, collect_chars, lemma_uppercase_ignores_case, same_ignoring_ascii_case,
    to_uppercase, uppercase,
};

verus! {

pub open spec fn is_ascii_letter(c: char) -> bool {
    ('a' <= c && c <= 'z') || ('A' <= c && c <= 'Z')
}

/// The selector is taken for a country code: its first two characters are
/// ASCII letters, whatever follows them.
pub open spec fn names_country(selector: Seq<char>) -> bool {
    selector.len() >= 2 && is_ascii_letter(selector[0]) && is_ascii_letter(selector[1])
}

/// The key under which a country selector is looked up: the whole selector
/// in upper case.
pub open spec fn country_key(selector: Seq<char>) -> Seq<char> {
    uppercase(selector)
}

fn is_letter(c: char) -> (b: bool)
    ensures
        b == is_ascii_letter(c),
{
    ('a' <= c && c <= 'z') || ('A' <= c && c <= 'Z')
}

/// Whether the selector is taken for a country code.
pub fn is_country_selector(selector: &str) -> (b: bool)
    ensures
        b == names_country(selector@),
{
    let chars = collect_chars(selector);
    chars.len() >= 2 && is_letter(chars[0]) && is_letter(chars[1])
}

/// The table key of a country selector.
pub fn country_key_of(selector: &str) -> (key: String)
    ensures
        key@ == country_key(selector@),
{
    to_uppercase(selector)
}

/// Classification and lookup key do not depend on the case of ASCII letters:
/// two ASCII selectors that differ only in case are classified alike and
/// give the same key.
pub proof fn lemma_country_key_ignores_case(a: Seq<char>, b: Seq<char>)
    requires
        is_ascii_chars(a),
        is_ascii_chars(b),
        same_ignoring_ascii_case(a, b),
    ensures
        names_country(a) == names_country(b),
        country_key(a) == country_key(b),
{
    if a.len() >= 2 {
        assert(ascii_upper(a[0]) == ascii_upper(b[0]));
        assert(ascii_upper(a[1]) == ascii_upper(b[1]));
    }
    lemma_uppercase_ignores_case(a, b);
}

} // verus!

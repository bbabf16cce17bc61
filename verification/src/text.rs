//! Text helpers: the characters of a string, and its upper and lower case.
//!
//! ASCII text, which is nearly all that a gateway sees, is recased here,
//! letter by letter. Only text with other characters goes through the
//! Unicode case mappings of the standard library.

use vstd::prelude::*;
use vstd::utf8::is_ascii_chars;

verus! {

/// `a` to `z` become `A` to `Z`; every other character stays.
pub open spec fn ascii_upper(c: char) -> char {
    if 'a' <= c && c <= 'z' {
        ((c as u8 - 32) as u8) as char
    } else {
        c
    }
}

/// `A` to `Z` become `a` to `z`; every other character stays.
pub open spec fn ascii_lower(c: char) -> char {
    if 'A' <= c && c <= 'Z' {
        ((c as u8 + 32) as u8) as char
    } else {
        c
    }
}

pub open spec fn ascii_uppercase(text: Seq<char>) -> Seq<char> {
    Seq::new(text.len(), |i: int| ascii_upper(text[i]))
}

pub open spec fn ascii_lowercase(text: Seq<char>) -> Seq<char> {
    Seq::new(text.len(), |i: int| ascii_lower(text[i]))
}

/// The uppercase form that Unicode gives a text.
pub uninterp spec fn unicode_uppercase(text: Seq<char>) -> Seq<char>;

/// The lowercase form that Unicode gives a text.
pub uninterp spec fn unicode_lowercase(text: Seq<char>) -> Seq<char>;

/// A text in upper case.
pub open spec fn uppercase(text: Seq<char>) -> Seq<char> {
    if is_ascii_chars(text) {
        ascii_uppercase(text)
    } else {
        unicode_uppercase(text)
    }
}

/// A text in lower case.
pub open spec fn lowercase(text: Seq<char>) -> Seq<char> {
    if is_ascii_chars(text) {
        ascii_lowercase(text)
    } else {
        unicode_lowercase(text)
    }
}

/// Two texts that differ at most in the case of their ASCII letters.
pub open spec fn same_ignoring_ascii_case(a: Seq<char>, b: Seq<char>) -> bool {
    a.len() == b.len() && forall|i: int|
        0 <= i < a.len() ==> ascii_upper(#[trigger] a[i]) == ascii_upper(b[i])
}

/// `str::to_uppercase`: the result is the Unicode uppercase form of the
/// argument, which depends on the argument alone.
#[verifier::external_body]
fn to_unicode_uppercase(text: &str) -> (upper: String)
    ensures
        upper@ == unicode_uppercase(text@),
{
    text.to_uppercase()
}

/// `str::to_lowercase`: the result is the Unicode lowercase form of the
/// argument, which depends on the argument alone.
#[verifier::external_body]
fn to_unicode_lowercase(text: &str) -> (lower: String)
    ensures
        lower@ == unicode_lowercase(text@),
{
    text.to_lowercase()
}

/// `String::push`: the character is appended to the string.
#[verifier::external_body]
fn push_char(text: &mut String, c: char)
    ensures
        final(text)@ == old(text)@.push(c),
{
    text.push(c)
}

fn upper_of(c: char) -> (u: char)
    ensures
        u == ascii_upper(c),
{
    if 'a' <= c && c <= 'z' {
        ((c as u8) - 32) as char
    } else {
        c
    }
}

fn lower_of(c: char) -> (l: char)
    ensures
        l == ascii_lower(c),
{
    if 'A' <= c && c <= 'Z' {
        ((c as u8) + 32) as char
    } else {
        c
    }
}

/// The characters of `text`, in order.
pub fn collect_chars(text: &str) -> (chars: Vec<char>)
    ensures
        chars@ == text@,
{
    let mut chars: Vec<char> = Vec::new();
    for c in it: text.chars()
        invariant
            chars@ == it.seq().take(it.index() as int),
            it.seq() == text@,
    {
        chars.push(c);
    }
    chars
}

/// The text in upper case.
pub fn to_uppercase(text: &str) -> (upper: String)
    ensures
        upper@ == uppercase(text@),
{
    if text.is_ascii() {
        let chars = collect_chars(text);
        let mut upper = String::new();
        let mut i: usize = 0;
        while i < chars.len()
            invariant
                i <= chars.len(),
                chars@ == text@,
                upper@ == ascii_uppercase(text@.take(i as int)),
            decreases chars.len() - i,
        {
            push_char(&mut upper, upper_of(chars[i]));
            i += 1;
            assert(upper@ =~= ascii_uppercase(text@.take(i as int)));
        }
        assert(text@.take(i as int) =~= text@);
        upper
    } else {
        to_unicode_uppercase(text)
    }
}

/// The text in lower case.
pub fn to_lowercase(text: &str) -> (lower: String)
    ensures
        lower@ == lowercase(text@),
{
    if text.is_ascii() {
        let chars = collect_chars(text);
        let mut lower = String::new();
        let mut i: usize = 0;
        while i < chars.len()
            invariant
                i <= chars.len(),
                chars@ == text@,
                lower@ == ascii_lowercase(text@.take(i as int)),
            decreases chars.len() - i,
        {
            push_char(&mut lower, lower_of(chars[i]));
            i += 1;
            assert(lower@ =~= ascii_lowercase(text@.take(i as int)));
        }
        assert(text@.take(i as int) =~= text@);
        lower
    } else {
        to_unicode_lowercase(text)
    }
}

/// The upper case of ASCII text does not depend on the case of its letters.
pub proof fn lemma_uppercase_ignores_case(a: Seq<char>, b: Seq<char>)
    requires
        is_ascii_chars(a),
        is_ascii_chars(b),
        same_ignoring_ascii_case(a, b),
    ensures
        uppercase(a) == uppercase(b),
{
    assert(ascii_uppercase(a) =~= ascii_uppercase(b));
}

} // verus!

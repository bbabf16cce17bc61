//! Upstream endpoints and the text form they are written in.
//!
//! An endpoint is written as a host, one separator (`:`, `=` or `-`) and a
//! port of one to five decimal digits. The host is every character before the
//! last separator, so it may itself hold separator characters; it is never
//! empty and never spans a line feed.

use vstd::prelude::*;
use crate::text::collect_chars;

verus! {

/// Why a piece of text is not an endpoint.
#[derive(Clone, Copy, Debug, PartialEq, Eq, Structural)]
pub enum FormatError {
    /// The text is not a host, a separator and one to five digits.
    Malformed,
    /// The text has the right shape, but its digits name no port in 1..=65535.
    PortRange,
}

/// The mathematical value of an [`Endpoint`].
pub struct EndpointView {
    pub host: Seq<char>,
    pub port: int,
}

/// A host and port that passed full validation.
///
/// The fields are private: the only way to obtain an `Endpoint` is
/// [`parse_endpoint`], so every value has a non-empty host and a port in
/// 1..=65535.
#[derive(Debug, PartialEq, Eq)]
pub struct Endpoint {
    host: String,
    port: u16,
}

impl View for Endpoint {
    type V = EndpointView;

    closed spec fn view(&self) -> EndpointView {
        EndpointView { host: self.host@, port: self.port as int }
    }
}

impl Clone for Endpoint {
    fn clone(&self) -> (copy: Self)
        ensures
            copy@ == self@,
    {
        proof {
            use_type_invariant(self);
        }
        Endpoint { host: self.host.clone(), port: self.port }
    }
}

/// What every endpoint satisfies.
pub open spec fn valid_endpoint(e: EndpointView) -> bool {
    e.host.len() > 0 && 1 <= e.port <= 65535
}

impl Endpoint {
    #[verifier::type_invariant]
    spec fn well_formed(self) -> bool {
        self.host@.len() > 0 && self.port >= 1
    }

    /// The host, never empty.
    pub fn host(&self) -> (host: &str)
        ensures
            host@ == self@.host,
            valid_endpoint(self@),
    {
        proof {
            use_type_invariant(self);
        }
        self.host.as_str()
    }

    /// The port, never zero.
    pub fn port(&self) -> (port: u16)
        ensures
            port == self@.port,
            valid_endpoint(self@),
    {
        proof {
            use_type_invariant(self);
        }
        self.port
    }
}

pub open spec fn is_separator(c: char) -> bool {
    c == ':' || c == '=' || c == '-'
}

pub open spec fn is_digit(c: char) -> bool {
    '0' <= c && c <= '9'
}

pub open spec fn digit_value(c: char) -> nat {
    (c as nat - '0' as nat) as nat
}

/// The number that a run of decimal digits writes, leading zeros allowed.
pub open spec fn decimal_value(digits: Seq<char>) -> nat
    decreases digits.len(),
{
    if digits.len() == 0 {
        0
    } else {
        decimal_value(digits.drop_last()) * 10 + digit_value(digits.last())
    }
}

/// `text` is an endpoint whose separator stands at index `k`: a non-empty
/// host without line feed before it, one to five digits and nothing else
/// behind it.
pub open spec fn splits_at(text: Seq<char>, k: int) -> bool {
    &&& 0 < k < text.len()
    &&& is_separator(text[k])
    &&& 1 <= text.len() - (k + 1) <= 5
    &&& forall|j: int| k < j < text.len() ==> is_digit(#[trigger] text[j])
    &&& forall|j: int| 0 <= j < k ==> #[trigger] text[j] != '\n'
}

/// `text` has the shape of an endpoint.
pub open spec fn is_literal(text: Seq<char>) -> bool {
    exists|k: int| splits_at(text, k)
}

/// The index of the separator between host and port. [`lemma_split_unique`]
/// shows that there is at most one.
pub open spec fn split_point(text: Seq<char>) -> int {
    choose|k: int| splits_at(text, k)
}

/// What `text` means as an endpoint.
pub open spec fn parse_literal(text: Seq<char>) -> Result<EndpointView, FormatError> {
    if !is_literal(text) {
        Err(FormatError::Malformed)
    } else {
        let k = split_point(text);
        let port = decimal_value(text.subrange(k + 1, text.len() as int));
        if 1 <= port <= 65535 {
            Ok(EndpointView { host: text.subrange(0, k), port: port as int })
        } else {
            Err(FormatError::PortRange)
        }
    }
}

/// The view of a parse result.
pub open spec fn parsed_view(res: Result<Endpoint, FormatError>) -> Result<
    EndpointView,
    FormatError,
> {
    match res {
        Ok(e) => Ok(e@),
        Err(err) => Err(err),
    }
}

/// A separator is no digit, so the digits behind the separator fix where it
/// stands: the text splits in one place at most.
pub proof fn lemma_split_unique(text: Seq<char>, k1: int, k2: int)
    requires
        splits_at(text, k1),
        splits_at(text, k2),
    ensures
        k1 == k2,
{
    if k1 < k2 {
        assert(is_digit(text[k2]));
    } else if k2 < k1 {
        assert(is_digit(text[k1]));
    }
}

/// Every text that parses gives a valid endpoint.
pub proof fn lemma_parsed_endpoint_valid(text: Seq<char>)
    ensures
        parse_literal(text) matches Ok(e) ==> valid_endpoint(e),
{
    if is_literal(text) {
        let k = split_point(text);
        assert(splits_at(text, k));
    }
}

/// A non-empty host without line feed, a separator and one to five digits
/// always split behind the host, and the port is the number that the digits
/// write.
pub proof fn lemma_literal_parses(host: Seq<char>, separator: char, digits: Seq<char>)
    requires
        host.len() > 0,
        forall|j: int| 0 <= j < host.len() ==> #[trigger] host[j] != '\n',
        is_separator(separator),
        1 <= digits.len() <= 5,
        forall|j: int| 0 <= j < digits.len() ==> is_digit(#[trigger] digits[j]),
    ensures
        is_literal(host + seq![separator] + digits),
        split_point(host + seq![separator] + digits) == host.len(),
        parse_literal(host + seq![separator] + digits) == (if 1 <= decimal_value(digits) <= 65535 {
            Ok::<EndpointView, FormatError>(
                EndpointView { host, port: decimal_value(digits) as int },
            )
        } else {
            Err::<EndpointView, FormatError>(FormatError::PortRange)
        }),
{
    let text = host + seq![separator] + digits;
    let k = host.len() as int;
    assert(text[k] == separator);
    assert forall|j: int| k < j < text.len() implies is_digit(#[trigger] text[j]) by {
        assert(text[j] == digits[j - k - 1]);
    }
    assert forall|j: int| 0 <= j < k implies #[trigger] text[j] != '\n' by {
        assert(text[j] == host[j]);
    }
    assert(splits_at(text, k));
    lemma_split_unique(text, split_point(text), k);
    assert(text.subrange(0, k) =~= host);
    assert(text.subrange(k + 1, text.len() as int) =~= digits);
}

spec fn pow10(n: nat) -> nat
    decreases n,
{
    if n == 0 {
        1
    } else {
        10 * pow10((n - 1) as nat)
    }
}

fn digit_of(c: char) -> (d: Option<u32>)
    ensures
        d is Some <==> is_digit(c),
        d matches Some(v) ==> v == digit_value(c),
{
    if '0' <= c && c <= '9' {
        Some(c as u32 - '0' as u32)
    } else {
        None
    }
}

/// Where the trailing digits of `chars` begin, looking at no more than five.
fn trailing_digits_start(chars: &Vec<char>) -> (start: usize)
    ensures
        start <= chars.len() <= start + 5,
        forall|j: int| start <= j < chars.len() ==> is_digit(#[trigger] chars@[j]),
        start == 0 || chars.len() - start == 5 || !is_digit(chars@[start - 1]),
{
    let n = chars.len();
    let mut start = n;
    while start > 0 && n - start < 5 && digit_of(chars[start - 1]).is_some()
        invariant
            n == chars.len(),
            start <= n <= start + 5,
            forall|j: int| start <= j < n ==> is_digit(#[trigger] chars@[j]),
        decreases start,
    {
        start -= 1;
    }
    start
}

/// The number written by the digits `chars[start..]`.
fn read_decimal(chars: &Vec<char>, start: usize) -> (value: u32)
    requires
        start <= chars.len() <= start + 5,
        forall|j: int| start <= j < chars.len() ==> is_digit(#[trigger] chars@[j]),
    ensures
        value == decimal_value(chars@.subrange(start as int, chars.len() as int)),
{
    let n = chars.len();
    let mut value: u32 = 0;
    let mut i = start;
    assert(chars@.subrange(start as int, start as int) =~= Seq::<char>::empty());
    while i < n
        invariant
            n == chars.len(),
            start <= i <= n <= start + 5,
            forall|j: int| start <= j < n ==> is_digit(#[trigger] chars@[j]),
            value == decimal_value(chars@.subrange(start as int, i as int)),
            value < pow10((i - start) as nat),
        decreases n - i,
    {
        let digit = match digit_of(chars[i]) {
            Some(d) => d,
            None => 0,
        };
        proof {
            let next = chars@.subrange(start as int, i + 1);
            assert(next.drop_last() =~= chars@.subrange(start as int, i as int));
            assert(next.last() == chars@[i as int]);
            reveal_with_fuel(pow10, 6);
        }
        value = value * 10 + digit;
        i += 1;
    }
    proof {
        assert(chars@.subrange(start as int, i as int) =~= chars@.subrange(
            start as int,
            chars.len() as int,
        ));
    }
    value
}

/// Whether a line feed stands among the first `end` characters.
fn has_line_feed(chars: &Vec<char>, end: usize) -> (found: bool)
    requires
        end <= chars.len(),
    ensures
        found <==> exists|j: int| 0 <= j < end && #[trigger] chars@[j] == '\n',
{
    let mut i: usize = 0;
    while i < end
        invariant
            i <= end <= chars.len(),
            forall|j: int| 0 <= j < i ==> #[trigger] chars@[j] != '\n',
        decreases end - i,
    {
        if chars[i] == '\n' {
            return true;
        }
        i += 1;
    }
    false
}

/// Reads an endpoint from its text form.
///
/// The separator is the last `:`, `=` or `-` of the text. What stands before
/// it is the host, taken as it is; what stands behind it must be one to five
/// digits that name a port in 1..=65535.
pub fn parse_endpoint(text: &str) -> (res: Result<Endpoint, FormatError>)
    ensures
        parsed_view(res) == parse_literal(text@),
{
    let chars = collect_chars(text);
    let n = chars.len();
    let start = trailing_digits_start(&chars);
    proof {
        // Wherever the text splits, it splits just before its trailing digits.
        assert forall|k: int| splits_at(text@, k) implies k == start - 1 && start < n by {
            assert(is_digit(text@[n - 1]));
            if k >= start {
                assert(is_digit(text@[k]) || k == n);
            } else if k < start - 1 {
                assert(is_digit(text@[start - 1]));
            }
        }
    }
    if start == n || start < 2 {
        return Err(FormatError::Malformed);
    }
    let k = start - 1;
    let c = chars[k];
    if !(c == ':' || c == '=' || c == '-') {
        return Err(FormatError::Malformed);
    }
    if has_line_feed(&chars, k) {
        return Err(FormatError::Malformed);
    }
    assert(splits_at(text@, k as int));
    let value = read_decimal(&chars, start);
    if value < 1 || value > 65535 {
        return Err(FormatError::PortRange);
    }
    let host = text.substring_char(0, k).to_owned();
    Ok(Endpoint { host, port: value as u16 })
}

} // verus!

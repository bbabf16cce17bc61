//! Why a selector did not lead to an endpoint.

use vstd::prelude::*;
use crate::endpoint::FormatError;

verus! {

/// Why the table could not be had from its source.
#[derive(Clone, Copy, Debug, PartialEq, Eq, Structural)]
pub enum FetchError {
    /// The source could not be reached.
    Unreachable,
    /// The source answered with this status, which is not 200.
    Status(u16),
}

/// Why a selector did not resolve. Every one of these comes before any
/// handshake: a selector that fails is never relayed.
#[derive(Clone, Copy, Debug, PartialEq, Eq, Structural)]
pub enum SelectionError {
    /// The selector is neither a country code nor an endpoint.
    Unparseable,
    /// The digits of the selector, or of the chosen table entry, name no port
    /// in 1..=65535.
    PortRange,
    /// The table has no list for the country, or an empty one.
    NotFound,
    /// The chosen table entry is not an endpoint.
    MalformedEntry,
    /// The table document is not a JSON object of lists of strings.
    MalformedTable,
    /// The table was not cached and could not be fetched.
    Fetch(FetchError),
    /// The system gave no random byte to choose an entry with.
    NoEntropy,
}

impl SelectionError {
    /// The error says that some text is not a well-formed endpoint: the
    /// selector itself, or the table entry that was chosen for it.
    pub open spec fn spec_is_format_error(self) -> bool {
        self == SelectionError::Unparseable || self == SelectionError::PortRange || self
            == SelectionError::MalformedEntry
    }

    #[verifier::when_used_as_spec(spec_is_format_error)]
    pub fn is_format_error(self) -> (b: bool)
        ensures
            b == self.spec_is_format_error(),
    {
        match self {
            SelectionError::Unparseable | SelectionError::PortRange | SelectionError::MalformedEntry => true,
            _ => false,
        }
    }
}

/// The error of a selector that was read as an endpoint and is none.
pub open spec fn selector_error(e: FormatError) -> SelectionError {
    match e {
        FormatError::Malformed => SelectionError::Unparseable,
        FormatError::PortRange => SelectionError::PortRange,
    }
}

/// The error of a table entry that was chosen and is no endpoint.
pub open spec fn entry_error(e: FormatError) -> SelectionError {
    match e {
        FormatError::Malformed => SelectionError::MalformedEntry,
        FormatError::PortRange => SelectionError::PortRange,
    }
}

} // verus!

//! The errors a selection operation can produce.
//!
//! A malformed selector string fails fast with `InvalidSelection`; the
//! cardinality combinators report how the markup's shape disagreed with the
//! combinator chosen (`ExpectedOneGotNone`, `ExpectedOneGotMultiple`,
//! `ExpectedOptionalGotMultiple`); anything else travels as `Other`.

use vstd::prelude::*;
use vstd::string::StringExecFns;

verus! {

/// A scraping error.
#[derive(Debug, Clone, PartialEq, Eq)]
pub enum ScrapeError {
    /// The selector string does not parse.
    InvalidSelection { selection: String, message: String },
    /// Expected a single match but got two or more.
    ExpectedOneGotMultiple { selection: String },
    /// Expected a single match but got none.
    ExpectedOneGotNone { selection: String },
    /// Expected at most one match but got two or more.
    ExpectedOptionalGotMultiple { selection: String },
    /// Another error.
    Other(String),
}

/// Whether `e` is the invalid-selection error for the selector `sel`.
pub open spec fn is_invalid_selection(e: ScrapeError, sel: Seq<char>) -> bool {
    e matches ScrapeError::InvalidSelection { selection, .. } && selection@ == sel
}

/// Whether `e` is the expected-one-got-none error for the selector `sel`.
pub open spec fn is_one_got_none(e: ScrapeError, sel: Seq<char>) -> bool {
    e matches ScrapeError::ExpectedOneGotNone { selection } && selection@ == sel
}

/// Whether `e` is the expected-one-got-multiple error for the selector
/// `sel`.
pub open spec fn is_one_got_multiple(e: ScrapeError, sel: Seq<char>) -> bool {
    e matches ScrapeError::ExpectedOneGotMultiple { selection } && selection@ == sel
}

/// Whether `e` is the expected-optional-got-multiple error for the
/// selector `sel`.
pub open spec fn is_optional_got_multiple(e: ScrapeError, sel: Seq<char>) -> bool {
    e matches ScrapeError::ExpectedOptionalGotMultiple { selection } && selection@ == sel
}

impl ScrapeError {
    /// The text of the error's human-readable description.
    pub open spec fn message_view(&self) -> Seq<char> {
        match self {
            ScrapeError::InvalidSelection { selection, message } => "invalid selection '"@
                + selection@ + "': "@ + message@,
            ScrapeError::ExpectedOneGotMultiple { selection } => "expected one, got multiple: "@
                + selection@,
            ScrapeError::ExpectedOneGotNone { selection } => "expected one, got none: "@
                + selection@,
            ScrapeError::ExpectedOptionalGotMultiple { selection } =>
                "expected one or none, got multiple: "@ + selection@,
            ScrapeError::Other(message) => "error scraping page: "@ + message@,
        }
    }

    /// A human-readable description of the error.
    pub fn message(&self) -> (r: String)
        ensures
            r@ == self.message_view(),
    {
        match self {
            ScrapeError::InvalidSelection { selection, message } => {
                let mut r = String::from_str("invalid selection '");
                r.append(selection.as_str());
                r.append("': ");
                r.append(message.as_str());
                r
            },
            ScrapeError::ExpectedOneGotMultiple { selection } => {
                let mut r = String::from_str("expected one, got multiple: ");
                r.append(selection.as_str());
                r
            },
            ScrapeError::ExpectedOneGotNone { selection } => {
                let mut r = String::from_str("expected one, got none: ");
                r.append(selection.as_str());
                r
            },
            ScrapeError::ExpectedOptionalGotMultiple { selection } => {
                let mut r = String::from_str("expected one or none, got multiple: ");
                r.append(selection.as_str());
                r
            },
            ScrapeError::Other(message) => {
                let mut r = String::from_str("error scraping page: ");
                r.append(message.as_str());
                r
            },
        }
    }
}

} // verus!

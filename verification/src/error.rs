//! The errors of the web-sourcing layer.
//!
//! Each kind keeps apart one way a fetch can go wrong: a malformed request
//! (`InvalidURL`, `InvalidURLString`), a transport fault (`Protocol`), a
//! response status outside the accepted set (`InvalidResponseStatus`),
//! content that is not UTF-8 text (`InvalidText`), a storage fault
//! (`Storage`), a data-shape error from the selection engine (`Scrape`),
//! or anything else (`Other`). None of these is retried here; retry policy
//! belongs to the caller.

use vstd::prelude::*;
use vstd::string::StringExecFns;
use crate::scrape_error::ScrapeError;

verus! {

/// An error scraping data from the web.
#[derive(Debug, Clone, PartialEq, Eq)]
pub enum Error {
    /// A storage fault unrelated to simple absence.
    Storage { message: String },
    /// The URL cannot be requested; the message says why.
    InvalidURL { url: String, error_message: String },
    /// A URL string did not parse.
    InvalidURLString { url: String, error: String },
    /// The content is not valid UTF-8 text.
    InvalidText,
    /// A transport-level failure.
    Protocol { message: String },
    /// The response carried a status outside the accepted set.
    InvalidResponseStatus(u16),
    /// A data-shape error from the selection engine.
    Scrape(ScrapeError),
    /// Another error.
    Other(String),
}

/// Whether `e` rejects the request for the URL string `url` with the
/// message `msg`.
pub open spec fn is_invalid_url(e: Error, url: Seq<char>, msg: Seq<char>) -> bool {
    e matches Error::InvalidURL { url: u, error_message: m } && u@ == url && m@ == msg
}

impl From<ScrapeError> for Error {
    /// Wraps a selection error.
    fn from(e: ScrapeError) -> (r: Error) {
        Error::Scrape(e)
    }
}

impl vstd::std_specs::convert::FromSpecImpl<ScrapeError> for Error {
    open spec fn obeys_from_spec() -> bool {
        true
    }

    open spec fn from_spec(e: ScrapeError) -> Error {
        Error::Scrape(e)
    }
}

impl Error {
    /// A short human-readable description of the error kind.
    pub fn message(&self) -> (r: String)
        ensures
            match self {
                Error::Storage { message } => r@ == "storage error: "@ + message@,
                Error::InvalidURL { url, error_message } => r@ == "invalid URL '"@ + url@ + "': "@
                    + error_message@,
                Error::InvalidURLString { url, error } => r@ == "invalid URL string '"@ + url@
                    + "': "@ + error@,
                Error::InvalidText => r@ == "the content is not valid UTF-8 text"@,
                Error::Protocol { message } => r@ == "protocol error: "@ + message@,
                Error::InvalidResponseStatus(_) => r@ == "invalid response status"@,
                Error::Scrape(e) => r@ == "error scraping page: "@ + e.message_view(),
                Error::Other(message) => r@ == "error: "@ + message@,
            },
    {
        match self {
            Error::Storage { message } => {
                let mut r = String::from_str("storage error: ");
                r.append(message.as_str());
                r
            },
            Error::InvalidURL { url, error_message } => {
                let mut r = String::from_str("invalid URL '");
                r.append(url.as_str());
                r.append("': ");
                r.append(error_message.as_str());
                r
            },
            Error::InvalidURLString { url, error } => {
                let mut r = String::from_str("invalid URL string '");
                r.append(url.as_str());
                r.append("': ");
                r.append(error.as_str());
                r
            },
            Error::InvalidText => String::from_str("the content is not valid UTF-8 text"),
            Error::Protocol { message } => {
                let mut r = String::from_str("protocol error: ");
                r.append(message.as_str());
                r
            },
            Error::InvalidResponseStatus(_) => String::from_str("invalid response status"),
            Error::Scrape(e) => {
                let mut r = String::from_str("error scraping page: ");
                let inner = e.message();
                r.append(inner.as_str());
                r
            },
            Error::Other(message) => {
                let mut r = String::from_str("error: ");
                r.append(message.as_str());
                r
            },
        }
    }
}

} // verus!

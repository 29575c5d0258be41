//! The extraction pipeline's data model and its flat side-cache locations.
//!
//! A `Webpage` bundles what a download produced: the resolved URL, the
//! response status and headers, and the text content. An `Extract` pairs a
//! webpage with the value a parser pulled out of it. The side-cache used
//! by the caching extractor stores raw HTML under a flat file name derived
//! from a cryptographic digest of the URL (`cache_file_path`); it has no
//! sharding, no expiry and no invalidation — it is a development aid, not
//! a production cache.

use vstd::prelude::*;
use vstd::string::StringExecFns;

verus! {

/// An error extracting data from a webpage.
#[derive(Debug, Clone, PartialEq, Eq, PartialOrd, Ord, Hash)]
pub enum Error {
    /// An error setting up data extraction.
    Setup(String),
    /// An error executing the initial request.
    Execution(String),
    /// An error downloading or waiting for content.
    Download(String),
    /// An unspecified error.
    Other(String),
}

/// A downloaded webpage from a URL.
#[derive(Debug, Clone)]
pub struct Webpage {
    /// The resolved URL string.
    pub url: String,
    /// The response status code.
    pub status: u16,
    /// The response header (name, value) pairs.
    pub headers: Vec<(String, String)>,
    /// The text content.
    pub content: String,
}

/// Data extracted from a webpage.
#[derive(Debug, Clone)]
pub struct Extract<T> {
    /// The downloaded page.
    pub webpage: Webpage,
    /// The value the parser produced from it.
    pub data: T,
}

/// The lowercase hex digest that `sha256::digest` computes for a string:
/// a function of the characters alone.
pub uninterp spec fn sha256_hex_of(s: Seq<char>) -> Seq<char>;

/// Relies on `sha256::digest`: the digest depends on the input characters
/// alone, and its hex form is 64 characters long.
#[verifier::external_body]
fn sha256_hex(s: &str) -> (r: String)
    ensures
        r@ == sha256_hex_of(s@),
        r@.len() == 64,
{
    sha256::digest(s)
}

/// The flat side-cache location for a URL: the cache folder, then the hex
/// digest of the URL as the file name, then the `.html` extension. The
/// folder is used as a prefix exactly as given.
pub fn cache_file_path(cache_folder: &str, url: &str) -> (r: String)
    ensures
        r@ == cache_folder@ + sha256_hex_of(url@) + ".html"@,
{
    let hash = sha256_hex(url);
    let mut path = String::from_str(cache_folder);
    path.append(hash.as_str());
    path.append(".html");
    path
}

/// The webpage that stands for a cache replay: the URL itself, a `200 OK`
/// status, no headers, and the stored content.
pub fn cached_webpage(url: String, content: String) -> (r: Webpage)
    ensures
        r.url == url,
        r.status == 200,
        r.headers@.len() == 0,
        r.content == content,
{
    Webpage { url, status: 200, headers: Vec::new(), content }
}

} // verus!

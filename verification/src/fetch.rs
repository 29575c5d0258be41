//! The decision core of the fetcher.
//!
//! A `Fetcher` composes statically configured request headers with a
//! `WebCache`. Fetching is an exchange between this core and the caller,
//! who performs the actual file and network operations: the caller reads
//! the cache entry and hands the outcome to `after_cache_read`; on a miss
//! the core validates the request and returns the plan for exactly one
//! network call; the caller executes it and hands status and body to
//! `accept_response`, which applies the status policy; accepted bytes are
//! then written to every cache entry path and returned.

use vstd::prelude::*;
use vstd::string::StringExecFns;
use vstd::utf8::decode_utf8;
use vstd::utf8::valid_utf8;
use crate::cache::WebCache;
use crate::error::Error;
use crate::error::is_invalid_url;

verus! {

/// What the fetcher reads of a request URL: its full text (the cache key),
/// its scheme, and whether it carries a fragment component.
#[derive(Debug, Clone, PartialEq, Eq)]
pub struct RequestUrl {
    /// The complete URL string.
    pub text: String,
    /// The URL's scheme, lowercase.
    pub scheme: String,
    /// Whether the URL has a fragment component.
    pub has_fragment: bool,
}

/// One network call to perform: a method, a target URL and the headers to
/// send.
#[derive(Debug, Clone, PartialEq, Eq)]
pub struct RequestPlan {
    /// The request method.
    pub method: String,
    /// The target URL string.
    pub url: String,
    /// The header (name, value) pairs to send.
    pub headers: Vec<(String, String)>,
}

/// The next step of a fetch after the cache was consulted: either the
/// cached bytes are the answer, or one network call must be made.
#[derive(Debug, Clone, PartialEq, Eq)]
pub enum FetchStep {
    /// The content is already cached: return these bytes, make no network
    /// call.
    Done(Vec<u8>),
    /// The content is not cached: perform exactly this request.
    Fetch(RequestPlan),
}

/// Whether a scheme is accepted for a network request.
pub open spec fn scheme_ok(s: Seq<char>) -> bool {
    s == "http"@ || s == "https"@
}

/// Whether `p` is the one request plan the fetcher makes for `url` under
/// the headers `headers`: a GET of the URL's text with exactly those
/// headers.
pub open spec fn plan_for(p: RequestPlan, headers: Seq<(String, String)>, url: RequestUrl) -> bool {
    &&& p.method@ == "GET"@
    &&& p.url@ == url.text@
    &&& p.headers@.len() == headers.len()
    &&& forall|i: int|
        0 <= i < headers.len() ==> (#[trigger] p.headers@[i]).0@ == headers[i].0@
            && p.headers@[i].1@ == headers[i].1@
}

/// Decides whether response content can be decoded as text: succeeds
/// exactly on valid UTF-8 and yields its characters, and anything else
/// fails with `InvalidText`.
pub fn decode_text(data: Vec<u8>) -> (r: Result<String, Error>)
    ensures
        r is Ok <==> valid_utf8(data@),
        r matches Ok(s) ==> s@ == decode_utf8(data@),
        !valid_utf8(data@) ==> r == Err::<String, Error>(Error::InvalidText),
{
    match utf8_to_string(data) {
        Some(s) => Ok(s),
        None => Err(Error::InvalidText),
    }
}

/// Relies on `String::from_utf8`: it succeeds exactly on valid UTF-8 and
/// yields the string of the bytes' decoded characters.
#[verifier::external_body]
fn utf8_to_string(data: Vec<u8>) -> (r: Option<String>)
    ensures
        r matches Some(s) ==> valid_utf8(data@) && s@ == decode_utf8(data@),
        r is None ==> !valid_utf8(data@),
{
    String::from_utf8(data).ok()
}

/// Sources web content through a cache: configured headers plus the cache
/// whose entry paths the caller reads and writes.
#[derive(Debug, Clone)]
pub struct Fetcher {
    /// The header (name, value) pairs sent with every request.
    pub headers: Vec<(String, String)>,
    /// The content cache consulted before any network call.
    pub cache: WebCache,
}

impl Fetcher {
    /// Creates a new fetcher with the given default headers and cache.
    pub fn new(headers: Vec<(String, String)>, cache: WebCache) -> (r: Fetcher)
        ensures
            r.headers == headers,
            r.cache == cache,
    {
        Fetcher { headers, cache }
    }

    /// Validates the request and builds the one network call to perform.
    ///
    /// A scheme other than `http` or `https`, or a URL carrying a
    /// fragment, is rejected with `InvalidURL` before any network call;
    /// every other URL gets exactly one GET plan carrying the configured
    /// headers.
    pub fn create_request(&self, url: &RequestUrl) -> (r: Result<RequestPlan, Error>)
        ensures
            !scheme_ok(url.scheme@) ==> (r matches Err(e) && is_invalid_url(
                e,
                url.text@,
                "the scheme must be 'http' or 'https'"@,
            )),
            scheme_ok(url.scheme@) && url.has_fragment ==> (r matches Err(e) && is_invalid_url(
                e,
                url.text@,
                "the fragment must be empty"@,
            )),
            scheme_ok(url.scheme@) && !url.has_fragment ==> (r matches Ok(p) && plan_for(
                p,
                self.headers@,
                *url,
            )),
    {
        let http = String::from_str("http");
        let https = String::from_str("https");
        if !(url.scheme == http || url.scheme == https) {
            Err(
                Error::InvalidURL {
                    url: url.text.clone(),
                    error_message: String::from_str("the scheme must be 'http' or 'https'"),
                },
            )
        } else if url.has_fragment {
            Err(
                Error::InvalidURL {
                    url: url.text.clone(),
                    error_message: String::from_str("the fragment must be empty"),
                },
            )
        } else {
            let mut headers: Vec<(String, String)> = Vec::new();
            let mut i: usize = 0;
            while i < self.headers.len()
                invariant
                    i <= self.headers@.len(),
                    headers@.len() == i,
                    forall|j: int|
                        0 <= j < i ==> (#[trigger] headers@[j]).0@ == self.headers@[j].0@
                            && headers@[j].1@ == self.headers@[j].1@,
                decreases self.headers@.len() - i,
            {
                let name = self.headers[i].0.clone();
                let value = self.headers[i].1.clone();
                headers.push((name, value));
                i += 1;
            }
            Ok(RequestPlan { method: String::from_str("GET"), url: url.text.clone(), headers })
        }
    }

    /// Decides the next step once the cache has been consulted.
    ///
    /// A cache hit is final: the cached bytes are returned as they are and
    /// no network call is planned, with no validation of the URL. On a
    /// miss the request is validated and the one network call to perform
    /// is planned (`create_request`).
    pub fn after_cache_read(&self, url: &RequestUrl, cached: Option<Vec<u8>>) -> (r: Result<
        FetchStep,
        Error,
    >)
        ensures
            cached matches Some(d) ==> (r matches Ok(s) && s matches FetchStep::Done(b) && b@
                == d@),
            cached is None && !scheme_ok(url.scheme@) ==> (r matches Err(e) && is_invalid_url(
                e,
                url.text@,
                "the scheme must be 'http' or 'https'"@,
            )),
            cached is None && scheme_ok(url.scheme@) && url.has_fragment ==> (r matches Err(e)
                && is_invalid_url(e, url.text@, "the fragment must be empty"@)),
            cached is None && scheme_ok(url.scheme@) && !url.has_fragment ==> (r matches Ok(s)
                && s matches FetchStep::Fetch(p) && plan_for(p, self.headers@, *url)),
    {
        match cached {
            Some(data) => Ok(FetchStep::Done(data)),
            None => {
                match self.create_request(url) {
                    Ok(plan) => Ok(FetchStep::Fetch(plan)),
                    Err(e) => Err(e),
                }
            },
        }
    }

    /// Applies the status policy to a response: `200 OK` and
    /// `204 No Content` are the only accepted successes, and an accepted
    /// response hands its bytes through unchanged. Any other status fails
    /// with `InvalidResponseStatus` carrying that status, and nothing is
    /// cached.
    pub fn accept_response(&self, status: u16, data: Vec<u8>) -> (r: Result<Vec<u8>, Error>)
        ensures
            r is Ok <==> (status == 200 || status == 204),
            r matches Ok(d) ==> d@ == data@,
            !(status == 200 || status == 204) ==> r == Err::<Vec<u8>, Error>(
                Error::InvalidResponseStatus(status),
            ),
    {
        if status == 200 || status == 204 {
            Ok(data)
        } else {
            Err(Error::InvalidResponseStatus(status))
        }
    }
}

} // verus!

use std::str::FromStr;

use file_storage::{FilePath, StoragePath};
use web_url::WebUrl;
use webscrape::cache::WebCache;
use webscrape::error::Error;
use webscrape::fetch::{FetchStep, Fetcher, RequestUrl};

fn request_url(s: &str) -> RequestUrl {
    let url = WebUrl::from_str(s).unwrap();
    RequestUrl {
        text: url.as_str().to_string(),
        scheme: url.scheme().as_str().to_string(),
        has_fragment: url.fragment().is_some(),
    }
}

fn fetcher_without_cache() -> Fetcher {
    Fetcher::new(Vec::new(), WebCache::new(None, None))
}

#[test]
fn fragment_is_rejected_before_any_network_call() {
    let fetcher = fetcher_without_cache();
    let url = request_url("https://example.com/page#section");
    assert!(url.has_fragment);
    match fetcher.after_cache_read(&url, None) {
        Err(Error::InvalidURL { url: u, error_message }) => {
            assert_eq!(u, url.text);
            assert_eq!(error_message, "the fragment must be empty");
        }
        other => panic!("expected InvalidURL, got {other:?}"),
    }
}

#[test]
fn non_http_scheme_is_rejected() {
    let fetcher = fetcher_without_cache();
    let url = RequestUrl {
        text: "ftp://example.com/file".to_string(),
        scheme: "ftp".to_string(),
        has_fragment: false,
    };
    match fetcher.create_request(&url) {
        Err(Error::InvalidURL { url: u, error_message }) => {
            assert_eq!(u, "ftp://example.com/file");
            assert_eq!(error_message, "the scheme must be 'http' or 'https'");
        }
        other => panic!("expected InvalidURL, got {other:?}"),
    }
}

#[test]
fn request_plan_carries_the_configured_headers() {
    let headers = vec![
        ("accept".to_string(), "text/html".to_string()),
        ("user-agent".to_string(), "webscrape-tests".to_string()),
    ];
    let fetcher = Fetcher::new(headers.clone(), WebCache::new(None, None));
    let url = request_url("https://example.com/page");
    let plan = fetcher.create_request(&url).unwrap();
    assert_eq!(plan.method, "GET");
    assert_eq!(plan.url, url.text);
    assert_eq!(plan.headers, headers);
}

#[test]
fn status_policy_accepts_only_200_and_204() {
    let fetcher = fetcher_without_cache();
    assert_eq!(fetcher.accept_response(200, b"ok".to_vec()), Ok(b"ok".to_vec()));
    assert_eq!(fetcher.accept_response(204, Vec::new()), Ok(Vec::new()));
    for status in [301u16, 404, 403, 500, 100, 201] {
        assert_eq!(
            fetcher.accept_response(status, b"body".to_vec()),
            Err(Error::InvalidResponseStatus(status)),
        );
    }
}

#[test]
fn cache_hit_returns_the_bytes_without_validation() {
    let fetcher = fetcher_without_cache();
    // even a URL that would be rejected is served from the cache
    let url = request_url("https://example.com/page#section");
    match fetcher.after_cache_read(&url, Some(b"cached".to_vec())) {
        Ok(FetchStep::Done(data)) => assert_eq!(data, b"cached"),
        other => panic!("expected Done, got {other:?}"),
    }
}

fn file_at(path: &str) -> FilePath {
    StoragePath::parse(path).unwrap().to_file().unwrap()
}

fn read_entry(cache: &WebCache, key: &str) -> Option<Vec<u8>> {
    for path in cache.entry_paths(key) {
        if let Some(data) = file_at(&path).read_as_vec_if_exists().unwrap() {
            return Some(data);
        }
    }
    None
}

/// Drives one fetch through the decision core, with the given canned
/// response standing in for the network. Returns the bytes and how many
/// network calls were made.
fn run_fetch(
    fetcher: &Fetcher,
    url: &RequestUrl,
    status: u16,
    body: &[u8],
) -> Result<(Vec<u8>, usize), Error> {
    let cached = read_entry(&fetcher.cache, &url.text);
    match fetcher.after_cache_read(url, cached)? {
        FetchStep::Done(data) => Ok((data, 0)),
        FetchStep::Fetch(plan) => {
            assert_eq!(plan.method, "GET");
            assert_eq!(plan.url, url.text);
            // one network call happens here
            let data = fetcher.accept_response(status, body.to_vec())?;
            for path in fetcher.cache.entry_paths(&url.text) {
                let file = file_at(&path);
                file.delete().unwrap();
                file.write_data(&data).unwrap();
            }
            Ok((data, 1))
        }
    }
}

#[test]
fn miss_fetches_once_and_second_get_uses_the_cache() {
    let cache = WebCache::new(Some("/tmp/webscrape-fetch".to_string()), None);
    let fetcher = Fetcher::new(Vec::new(), cache);
    let url = request_url("https://example.com/fetch-once");
    for path in fetcher.cache.entry_paths(&url.text) {
        file_at(&path).delete().unwrap();
    }

    let (bytes, calls) = run_fetch(&fetcher, &url, 200, b"the page").unwrap();
    assert_eq!(bytes, b"the page");
    assert_eq!(calls, 1);

    let (again, calls) = run_fetch(&fetcher, &url, 500, b"never used").unwrap();
    assert_eq!(again, bytes);
    assert_eq!(calls, 0);

    for path in fetcher.cache.entry_paths(&url.text) {
        file_at(&path).delete().unwrap();
    }
}

#[test]
fn rejected_status_caches_nothing() {
    let cache = WebCache::new(Some("/tmp/webscrape-404".to_string()), None);
    let fetcher = Fetcher::new(Vec::new(), cache);
    let url = request_url("https://example.com/missing");
    for path in fetcher.cache.entry_paths(&url.text) {
        file_at(&path).delete().unwrap();
    }

    let result = run_fetch(&fetcher, &url, 404, b"not found");
    assert_eq!(result, Err(Error::InvalidResponseStatus(404)));
    assert_eq!(read_entry(&fetcher.cache, &url.text), None);

    // a 204 succeeds and populates the cache
    let (bytes, calls) = run_fetch(&fetcher, &url, 204, b"").unwrap();
    assert_eq!(bytes, b"");
    assert_eq!(calls, 1);
    assert_eq!(read_entry(&fetcher.cache, &url.text), Some(Vec::new()));
    for path in fetcher.cache.entry_paths(&url.text) {
        file_at(&path).delete().unwrap();
    }
}

#[test]
fn decode_text_requires_utf8() {
    assert_eq!(
        webscrape::fetch::decode_text("héllo wörld".as_bytes().to_vec()),
        Ok("héllo wörld".to_string()),
    );
    assert_eq!(
        webscrape::fetch::decode_text(vec![0xff, 0xfe, 0x00]),
        Err(Error::InvalidText),
    );
}

#[test]
fn error_messages_name_the_fault() {
    let e = Error::InvalidURL {
        url: "ftp://x".to_string(),
        error_message: "the scheme must be 'http' or 'https'".to_string(),
    };
    assert_eq!(e.message(), "invalid URL 'ftp://x': the scheme must be 'http' or 'https'");
    assert_eq!(Error::InvalidText.message(), "the content is not valid UTF-8 text");
}

//! Cardinality-checked selection combinators over parsed HTML elements.
//!
//! A `Scraper` wraps one element of a document parsed by the `scraper`
//! crate. Every combinator takes a CSS-like selector string and declares,
//! by its name, how many matches are valid: `all*` accepts any number,
//! `only*` demands exactly one and `optional*` at most one. A selector
//! string that does not parse fails every combinator with
//! `InvalidSelection` before any element is touched, and a caller-supplied
//! extraction function short-circuits the traversal with its first error.

use vstd::prelude::*;
use crate::scrape_error::ScrapeError;
use crate::scrape_error::is_invalid_selection;
use crate::scrape_error::is_one_got_multiple;
use crate::scrape_error::is_one_got_none;
use crate::scrape_error::is_optional_got_multiple;

verus! {

#[verifier::external_type_specification]
#[verifier::external_body]
pub struct ExSelector(scraper::Selector);

#[verifier::external_type_specification]
#[verifier::external_body]
pub struct ExElementRef<'a>(scraper::ElementRef<'a>);

#[verifier::external_type_specification]
#[verifier::external_body]
pub struct ExHtml(scraper::Html);

/// Whether `scraper::Selector::parse` accepts the selector string: parsing
/// succeeds or fails as a function of the string alone.
pub uninterp spec fn selector_ok(s: Seq<char>) -> bool;

/// Relies on `scraper::Selector::parse`: a selector string parses into a
/// selector group, or is rejected with a parse error.
#[verifier::external_body]
fn parse_selector(selection: &str) -> (r: Result<scraper::Selector, String>)
    ensures
        r is Ok <==> selector_ok(selection@),
{
    scraper::Selector::parse(selection).map_err(|e| e.to_string())
}

/// Relies on `scraper::ElementRef::select`: yields the descendant elements
/// matching the selector, in document order.
#[verifier::external_body]
fn select_elements<'a>(element: &scraper::ElementRef<'a>, selector: &scraper::Selector) -> (r: Vec<scraper::ElementRef<'a>>) {
    element.select(selector).collect()
}

/// Relies on `scraper::ElementRef::text`: concatenates the element's
/// descendant text nodes in document order.
#[verifier::external_body]
fn element_text(element: &scraper::ElementRef<'_>) -> (r: String) {
    element.text().collect()
}

/// Relies on `scraper::ElementRef::inner_html`: serializes the element's
/// inner markup.
#[verifier::external_body]
fn element_html(element: &scraper::ElementRef<'_>) -> (r: String) {
    element.inner_html()
}

/// Relies on `scraper::ElementRef::attr`: looks up the value of the named
/// attribute on the element itself.
#[verifier::external_body]
fn element_attr(element: &scraper::ElementRef<'_>, name: &str) -> (r: Option<String>) {
    element.attr(name).map(|a| a.to_string())
}

/// Extracts the concatenated descendant text of a matched element;
/// never fails.
pub fn scrape_text<'a>(s: Scraper<'a>) -> (res: Result<String, ScrapeError>)
    ensures
        res is Ok,
{
    Ok(element_text(&s.element))
}

/// Extracts the serialized inner markup of a matched element; never fails.
pub fn scrape_html<'a>(s: Scraper<'a>) -> (res: Result<String, ScrapeError>)
    ensures
        res is Ok,
{
    Ok(element_html(&s.element))
}

/// Relies on `scraper::Html::parse_document`: parses HTML text into a
/// document tree.
#[verifier::external_body]
pub fn parse_document(text: &str) -> (r: scraper::Html) {
    scraper::Html::parse_document(text)
}

/// Relies on `scraper::ElementRef::wrap`, applied to the children of the
/// document tree's root: yields the root's first element child — the
/// `html` element of any tree built by `Html::parse_document` — or
/// nothing when the tree holds no element.
#[verifier::external_body]
fn root_element(html: &scraper::Html) -> (r: Option<scraper::ElementRef<'_>>) {
    html.tree.root().children().find_map(scraper::ElementRef::wrap)
}

/// A view into one element of a parsed document, exposing the selection
/// combinators. Cheap to copy; never mutates the document.
#[derive(Clone, Copy, Debug)]
pub struct Scraper<'a> {
    /// The wrapped element.
    pub element: scraper::ElementRef<'a>,
}

/// An element that can scrape itself from the web.
pub trait Scrape: Sized {
    /// Scrapes an instance of the element from the scraper `s`.
    fn scrape(s: Scraper<'_>) -> Result<Self, ScrapeError>;
}

impl<'a> Scraper<'a> {
    /// Wraps the root element of a parsed document, or nothing when the
    /// document tree holds no element (a tree built by
    /// `Html::parse_document` always has one).
    pub fn from_document(html: &'a scraper::Html) -> (r: Option<Scraper<'a>>) {
        match root_element(html) {
            Some(element) => Some(Scraper { element }),
            None => None,
        }
    }

    /// Gets the element.
    pub fn element(&self) -> (r: scraper::ElementRef<'a>)
        ensures
            r == self.element,
    {
        self.element
    }

    /// Parses the `selection` string into a selector, or reports
    /// `InvalidSelection` naming that string.
    pub fn selector(selection: &str) -> (r: Result<scraper::Selector, ScrapeError>)
        ensures
            r is Ok <==> selector_ok(selection@),
            r matches Err(e) ==> is_invalid_selection(e, selection@),
    {
        match parse_selector(selection) {
            Ok(s) => Ok(s),
            Err(m) => Err(
                ScrapeError::InvalidSelection { selection: selection.to_owned(), message: m },
            ),
        }
    }

    /// Wraps each element in a `Scraper`.
    fn to_scrapers(els: Vec<scraper::ElementRef<'a>>) -> (r: Vec<Scraper<'a>>)
        ensures
            r@.len() == els@.len(),
            forall|i: int| 0 <= i < els@.len() ==> (#[trigger] r@[i]).element == els@[i],
    {
        let mut r: Vec<Scraper<'a>> = Vec::new();
        let mut i: usize = 0;
        while i < els.len()
            invariant
                i <= els@.len(),
                r@.len() == i,
                forall|j: int| 0 <= j < i ==> (#[trigger] r@[j]).element == els@[j],
            decreases els@.len() - i,
        {
            r.push(Scraper { element: els[i] });
            i += 1;
        }
        r
    }

    /// The matches of `selection` under this element, in document order,
    /// each wrapped in a `Scraper`. Fails exactly when the selector string
    /// does not parse.
    fn matches_of(&self, selection: &str) -> (r: Result<Vec<Scraper<'a>>, ScrapeError>)
        ensures
            r is Ok <==> selector_ok(selection@),
            r matches Err(e) ==> is_invalid_selection(e, selection@),
    {
        let sel = match Self::selector(selection) {
            Ok(s) => s,
            Err(e) => {
                return Err(e);
            },
        };
        Ok(Self::to_scrapers(select_elements(&self.element, &sel)))
    }
}

/// Whether `s` is a strictly increasing sequence of indices below `n`.
pub open spec fn increasing_indices(s: Seq<int>, n: int) -> bool {
    &&& forall|k: int| 0 <= k < s.len() ==> 0 <= #[trigger] s[k] < n
    &&& forall|k: int| 0 < k < s.len() ==> s[k - 1] < #[trigger] s[k]
}

impl<'a> Scraper<'a> {
    /// Runs `scrape` over every match, in order, collecting the results;
    /// the first error aborts the traversal.
    ///
    /// On success the result holds exactly one value per match, in match
    /// order; an error is either the first error `scrape` reported, or
    /// `InvalidSelection` when the selector string does not parse.
    pub fn all<T, F: Fn(Scraper<'a>) -> Result<T, ScrapeError>>(
        &self,
        selection: &str,
        scrape: F,
    ) -> (r: Result<Vec<T>, ScrapeError>)
        requires
            forall|s: Scraper<'a>| #[trigger] call_requires(scrape, (s,)),
        ensures
            r is Ok ==> selector_ok(selection@),
            !selector_ok(selection@) ==> (r matches Err(e) && is_invalid_selection(e, selection@)),
            r is Ok ==> exists|picked: Seq<Scraper<'a>>|
                picked.len() == r->Ok_0@.len() && forall|i: int|
                    0 <= i < picked.len() ==> call_ensures(
                        scrape,
                        (picked[i],),
                        Ok(#[trigger] r->Ok_0@[i]),
                    ),
            selector_ok(selection@) ==> (r matches Err(e) ==> exists|s: Scraper<'a>|
                call_ensures(scrape, (s,), Err(e))),
    {
        let ms = match self.matches_of(selection) {
            Ok(ms) => ms,
            Err(e) => {
                return Err(e);
            },
        };
        let res = Self::all_of(ms, scrape);
        proof {
            if res is Ok {
                assert(ms@.len() == res->Ok_0@.len() && forall|i: int|
                    0 <= i < ms@.len() ==> call_ensures(scrape, (ms@[i],), Ok(#[trigger] res->Ok_0@[i])));
            }
        }
        res
    }

    /// Runs `scrape` over the given matches, in order, collecting the
    /// results; the first error aborts the traversal. This is the
    /// traversal underneath `all`, stated over an explicit match list.
    pub fn all_of<T, F: Fn(Scraper<'a>) -> Result<T, ScrapeError>>(
        matches: Vec<Scraper<'a>>,
        scrape: F,
    ) -> (r: Result<Vec<T>, ScrapeError>)
        requires
            forall|s: Scraper<'a>| #[trigger] call_requires(scrape, (s,)),
        ensures
            r matches Ok(v) ==> v@.len() == matches@.len() && forall|i: int|
                0 <= i < matches@.len() ==> call_ensures(
                    scrape,
                    (matches@[i],),
                    Ok(#[trigger] v@[i]),
                ),
            r matches Err(e) ==> exists|i: int|
                0 <= i < matches@.len() && call_ensures(scrape, (#[trigger] matches@[i],), Err(e)),
    {
        let mut result: Vec<T> = Vec::new();
        let mut i: usize = 0;
        while i < matches.len()
            invariant
                forall|s: Scraper<'a>| #[trigger] call_requires(scrape, (s,)),
                i <= matches@.len(),
                result@.len() == i,
                forall|j: int|
                    0 <= j < i ==> call_ensures(scrape, (matches@[j],), Ok(#[trigger] result@[j])),
            decreases matches@.len() - i,
        {
            match scrape(matches[i]) {
                Ok(t) => result.push(t),
                Err(e) => {
                    return Err(e);
                },
            }
            i += 1;
        }
        Ok(result)
    }

    /// Scrapes the concatenated descendant text of every match.
    /// Fails exactly when the selector string does not parse.
    pub fn all_text(&self, selection: &str) -> (r: Result<Vec<String>, ScrapeError>)
        ensures
            r is Ok <==> selector_ok(selection@),
            r matches Err(e) ==> is_invalid_selection(e, selection@),
    {
        self.all(
            selection,
            scrape_text,
        )
    }

    /// Scrapes the serialized inner markup of every match.
    /// Fails exactly when the selector string does not parse.
    pub fn all_html(&self, selection: &str) -> (r: Result<Vec<String>, ScrapeError>)
        ensures
            r is Ok <==> selector_ok(selection@),
            r matches Err(e) ==> is_invalid_selection(e, selection@),
    {
        self.all(
            selection,
            scrape_html,
        )
    }

    /// Runs `scrape` over every match, keeping only the values it returns:
    /// a match for which `scrape` yields nothing is dropped, and the first
    /// error aborts the traversal.
    pub fn all_flat<T, F: Fn(Scraper<'a>) -> Result<Option<T>, ScrapeError>>(
        &self,
        selection: &str,
        scrape: F,
    ) -> (r: Result<Vec<T>, ScrapeError>)
        requires
            forall|s: Scraper<'a>| #[trigger] call_requires(scrape, (s,)),
        ensures
            r is Ok ==> selector_ok(selection@),
            !selector_ok(selection@) ==> (r matches Err(e) && is_invalid_selection(e, selection@)),
            r is Ok ==> exists|picked: Seq<Scraper<'a>>|
                picked.len() == r->Ok_0@.len() && forall|i: int|
                    0 <= i < picked.len() ==> call_ensures(
                        scrape,
                        (picked[i],),
                        Ok(Some(#[trigger] r->Ok_0@[i])),
                    ),
            selector_ok(selection@) ==> (r matches Err(e) ==> exists|s: Scraper<'a>|
                call_ensures(scrape, (s,), Err(e))),
    {
        let ms = match self.matches_of(selection) {
            Ok(ms) => ms,
            Err(e) => {
                return Err(e);
            },
        };
        let res = Self::all_flat_of(ms, scrape);
        proof {
            if res is Ok {
                let kept = choose|kept: Seq<int>|
                    #[trigger] kept.len() == res->Ok_0@.len() && increasing_indices(
                        kept,
                        ms@.len() as int,
                    ) && (forall|k: int|
                        0 <= k < kept.len() ==> call_ensures(
                            scrape,
                            (ms@[kept[k]],),
                            Ok(Some(#[trigger] res->Ok_0@[k])),
                        )) && (forall|j: int|
                        0 <= j < ms@.len() && !kept.contains(j) ==> call_ensures(
                            scrape,
                            (#[trigger] ms@[j],),
                            Ok(None::<T>),
                        ));
                let picked = Seq::new(res->Ok_0@.len(), |k: int| ms@[kept[k]]);
                assert(picked.len() == res->Ok_0@.len() && forall|k: int|
                    0 <= k < picked.len() ==> call_ensures(
                        scrape,
                        (picked[k],),
                        Ok(Some(#[trigger] res->Ok_0@[k])),
                    ));
            }
        }
        res
    }

    /// The traversal underneath `all_flat`, stated over an explicit match
    /// list: values are kept in match order, matches yielding nothing are
    /// dropped, the first error aborts.
    pub fn all_flat_of<T, F: Fn(Scraper<'a>) -> Result<Option<T>, ScrapeError>>(
        matches: Vec<Scraper<'a>>,
        scrape: F,
    ) -> (r: Result<Vec<T>, ScrapeError>)
        requires
            forall|s: Scraper<'a>| #[trigger] call_requires(scrape, (s,)),
        ensures
            r is Ok ==> r->Ok_0@.len() <= matches@.len(),
            r is Ok ==> exists|kept: Seq<int>|
                #[trigger] kept.len() == r->Ok_0@.len() && increasing_indices(kept, matches@.len() as int)
                && (forall|k: int|
                    0 <= k < kept.len() ==> call_ensures(
                        scrape,
                        (matches@[kept[k]],),
                        Ok(Some(#[trigger] r->Ok_0@[k])),
                    ))
                && (forall|j: int|
                    0 <= j < matches@.len() && !kept.contains(j) ==> call_ensures(
                        scrape,
                        (#[trigger] matches@[j],),
                        Ok(None::<T>),
                    )),
            r matches Err(e) ==> exists|i: int|
                0 <= i < matches@.len() && call_ensures(scrape, (#[trigger] matches@[i],), Err(e)),
    {
        let mut result: Vec<T> = Vec::new();
        let mut i: usize = 0;
        let ghost mut src: Seq<int> = Seq::empty();
        while i < matches.len()
            invariant
                forall|s: Scraper<'a>| #[trigger] call_requires(scrape, (s,)),
                i <= matches@.len(),
                result@.len() <= i,
                src.len() == result@.len(),
                increasing_indices(src, i as int),
                forall|k: int|
                    0 <= k < result@.len() ==> call_ensures(
                        scrape,
                        (matches@[src[k]],),
                        Ok(Some(#[trigger] result@[k])),
                    ),
                forall|j: int|
                    0 <= j < i && !src.contains(j) ==> call_ensures(
                        scrape,
                        (#[trigger] matches@[j],),
                        Ok(None::<T>),
                    ),
            decreases matches@.len() - i,
        {
            match scrape(matches[i]) {
                Ok(Some(t)) => {
                    result.push(t);
                    proof {
                        let prior = src;
                        src = src.push(i as int);
                        assert(src[src.len() - 1] == i as int);
                        assert forall|j: int| 0 <= j < i + 1 && !src.contains(j) implies
                            call_ensures(scrape, (#[trigger] matches@[j],), Ok(None::<T>)) by {
                            assert(j != i);
                            if prior.contains(j) {
                                let n = choose|n: int| 0 <= n < prior.len() && prior[n] == j;
                                assert(src[n] == j);
                            }
                            assert(!prior.contains(j));
                        }
                    }
                },
                Ok(None) => {
                    proof {
                        if src.contains(i as int) {
                            let n = choose|n: int| 0 <= n < src.len() && src[n] == i as int;
                            assert(src[n] < i as int);
                        }
                        assert(!src.contains(i as int));
                    }
                },
                Err(e) => {
                    return Err(e);
                },
            }
            i += 1;
        }
        proof {
            assert(src.len() == result@.len());
            assert(increasing_indices(src, matches@.len() as int));
            assert(forall|k: int|
                0 <= k < src.len() ==> call_ensures(
                    scrape,
                    (matches@[src[k]],),
                    Ok(Some(#[trigger] result@[k])),
                ));
            assert(forall|j: int|
                0 <= j < matches@.len() && !src.contains(j) ==> call_ensures(
                    scrape,
                    (#[trigger] matches@[j],),
                    Ok(None::<T>),
                ));
        }
        Ok(result)
    }
}

impl<'a> Scraper<'a> {
    /// Runs `scrape` on the only match of `selection`.
    ///
    /// Zero matches fail with `ExpectedOneGotNone` and two or more with
    /// `ExpectedOneGotMultiple`; `scrape` runs on the first match before a
    /// second match is looked for, so its error may also surface. The
    /// exact cardinality contract is stated on `only_of`.
    pub fn only<T, F: Fn(Scraper<'a>) -> Result<T, ScrapeError>>(
        &self,
        selection: &str,
        scrape: F,
    ) -> (r: Result<T, ScrapeError>)
        requires
            forall|s: Scraper<'a>| #[trigger] call_requires(scrape, (s,)),
        ensures
            r is Ok ==> selector_ok(selection@),
            !selector_ok(selection@) ==> (r matches Err(e) && is_invalid_selection(e, selection@)),
            r is Ok ==> exists|s: Scraper<'a>| call_ensures(scrape, (s,), r),
            selector_ok(selection@) ==> (r matches Err(e) ==> is_one_got_none(e, selection@)
                || is_one_got_multiple(e, selection@) || exists|s: Scraper<'a>|
                call_ensures(scrape, (s,), Err(e))),
    {
        let ms = match self.matches_of(selection) {
            Ok(ms) => ms,
            Err(e) => {
                return Err(e);
            },
        };
        let res = Self::only_of(ms, selection, scrape);
        proof {
            if res is Ok {
                assert(ms@.len() == 1);
                assert(call_ensures(scrape, (ms@[0],), res));
            }
        }
        res
    }

    /// The cardinality check underneath `only`, stated over an explicit
    /// match list: no match fails with `ExpectedOneGotNone`; one match
    /// returns what `scrape` makes of it; two or more matches run `scrape`
    /// on the first match and then fail with `ExpectedOneGotMultiple`
    /// unless `scrape` already failed.
    pub fn only_of<T, F: Fn(Scraper<'a>) -> Result<T, ScrapeError>>(
        matches: Vec<Scraper<'a>>,
        selection: &str,
        scrape: F,
    ) -> (r: Result<T, ScrapeError>)
        requires
            forall|s: Scraper<'a>| #[trigger] call_requires(scrape, (s,)),
        ensures
            matches@.len() == 0 ==> (r matches Err(e) && is_one_got_none(e, selection@)),
            matches@.len() == 1 ==> call_ensures(scrape, (matches@[0],), r),
            matches@.len() >= 2 ==> (r matches Err(e) && (call_ensures(
                scrape,
                (matches@[0],),
                Err(e),
            ) || (is_one_got_multiple(e, selection@) && exists|t: T|
                call_ensures(scrape, (matches@[0],), Ok(t))))),
    {
        if matches.len() == 0 {
            return Err(ScrapeError::ExpectedOneGotNone { selection: selection.to_owned() });
        }
        match scrape(matches[0]) {
            Err(e) => Err(e),
            Ok(first) => {
                proof {
                    assert(call_ensures(scrape, (matches@[0],), Ok(first)));
                }
                if matches.len() > 1 {
                    Err(ScrapeError::ExpectedOneGotMultiple { selection: selection.to_owned() })
                } else {
                    Ok(first)
                }
            },
        }
    }

    /// Scrapes the value of the attribute `att` on the only match of
    /// `selection`; a match without that attribute counts as no match.
    /// The exact cardinality contract is stated on `only_att_of`.
    pub fn only_att(&self, selection: &str, att: &str) -> (r: Result<String, ScrapeError>)
        ensures
            r is Ok ==> selector_ok(selection@),
            !selector_ok(selection@) ==> (r matches Err(e) && is_invalid_selection(e, selection@)),
            selector_ok(selection@) ==> (r matches Err(e) ==> is_one_got_none(e, selection@)
                || is_one_got_multiple(e, selection@)),
            r matches Err(e) ==> is_invalid_selection(e, selection@) || is_one_got_none(
                e,
                selection@,
            ) || is_one_got_multiple(e, selection@),
    {
        let ms = match self.matches_of(selection) {
            Ok(ms) => ms,
            Err(e) => {
                return Err(e);
            },
        };
        let first_att = if ms.len() > 0 {
            element_attr(&ms[0].element, att)
        } else {
            None
        };
        Self::only_att_of(ms, first_att, selection)
    }

    /// The cardinality check underneath `only_att`, stated over an
    /// explicit match list and the attribute lookup on the first match:
    /// no match, or a first match without the attribute, fails with
    /// `ExpectedOneGotNone`; two or more matches whose first carries the
    /// attribute fail with `ExpectedOneGotMultiple`; exactly one match
    /// carrying the attribute yields the attribute's value.
    pub fn only_att_of(
        matches: Vec<Scraper<'a>>,
        first_att: Option<String>,
        selection: &str,
    ) -> (r: Result<String, ScrapeError>)
        ensures
            matches@.len() == 0 ==> (r matches Err(e) && is_one_got_none(e, selection@)),
            matches@.len() >= 1 ==> (first_att is None ==> (r matches Err(e) && is_one_got_none(
                e,
                selection@,
            ))),
            matches@.len() == 1 ==> (first_att matches Some(a) ==> r == Ok::<String, ScrapeError>(
                a,
            )),
            matches@.len() >= 2 ==> (first_att is Some ==> (r matches Err(e)
                && is_one_got_multiple(e, selection@))),
    {
        if matches.len() == 0 {
            return Err(ScrapeError::ExpectedOneGotNone { selection: selection.to_owned() });
        }
        match first_att {
            None => Err(ScrapeError::ExpectedOneGotNone { selection: selection.to_owned() }),
            Some(a) => {
                if matches.len() > 1 {
                    Err(ScrapeError::ExpectedOneGotMultiple { selection: selection.to_owned() })
                } else {
                    Ok(a)
                }
            },
        }
    }

    /// Scrapes the concatenated descendant text of the only match of
    /// `selection`.
    pub fn only_text(&self, selection: &str) -> (r: Result<String, ScrapeError>)
        ensures
            r is Ok ==> selector_ok(selection@),
            !selector_ok(selection@) ==> (r matches Err(e) && is_invalid_selection(e, selection@)),
            selector_ok(selection@) ==> (r matches Err(e) ==> is_one_got_none(e, selection@)
                || is_one_got_multiple(e, selection@)),
            r matches Err(e) ==> is_invalid_selection(e, selection@) || is_one_got_none(
                e,
                selection@,
            ) || is_one_got_multiple(e, selection@),
    {
        self.only(
            selection,
            scrape_text,
        )
    }

    /// Scrapes the serialized markup of the only match of `selection`.
    pub fn only_html(&self, selection: &str) -> (r: Result<String, ScrapeError>)
        ensures
            r is Ok ==> selector_ok(selection@),
            !selector_ok(selection@) ==> (r matches Err(e) && is_invalid_selection(e, selection@)),
            selector_ok(selection@) ==> (r matches Err(e) ==> is_one_got_none(e, selection@)
                || is_one_got_multiple(e, selection@)),
            r matches Err(e) ==> is_invalid_selection(e, selection@) || is_one_got_none(
                e,
                selection@,
            ) || is_one_got_multiple(e, selection@),
    {
        self.only(
            selection,
            scrape_html,
        )
    }
}

impl<'a> Scraper<'a> {
    /// Runs `scrape` on the match of `selection`, if there is one.
    ///
    /// Zero matches return nothing; two or more fail with
    /// `ExpectedOptionalGotMultiple`, though `scrape` runs on the first
    /// match before the second is looked for. The exact cardinality
    /// contract is stated on `optional_of`.
    pub fn optional<T, F: Fn(Scraper<'a>) -> Result<T, ScrapeError>>(
        &self,
        selection: &str,
        scrape: F,
    ) -> (r: Result<Option<T>, ScrapeError>)
        requires
            forall|s: Scraper<'a>| #[trigger] call_requires(scrape, (s,)),
        ensures
            r is Ok ==> selector_ok(selection@),
            !selector_ok(selection@) ==> (r matches Err(e) && is_invalid_selection(e, selection@)),
            r matches Ok(o) ==> (o matches Some(t) ==> exists|s: Scraper<'a>|
                call_ensures(scrape, (s,), Ok(t))),
            selector_ok(selection@) ==> (r matches Err(e) ==> is_optional_got_multiple(e, selection@)
                || exists|s: Scraper<'a>| call_ensures(scrape, (s,), Err(e))),
    {
        let ms = match self.matches_of(selection) {
            Ok(ms) => ms,
            Err(e) => {
                return Err(e);
            },
        };
        Self::optional_of(ms, selection, scrape)
    }

    /// The cardinality check underneath `optional`, stated over an
    /// explicit match list: no match returns nothing; one match returns
    /// what `scrape` makes of it; two or more matches run `scrape` on the
    /// first match and then fail with `ExpectedOptionalGotMultiple` unless
    /// `scrape` already failed.
    pub fn optional_of<T, F: Fn(Scraper<'a>) -> Result<T, ScrapeError>>(
        matches: Vec<Scraper<'a>>,
        selection: &str,
        scrape: F,
    ) -> (r: Result<Option<T>, ScrapeError>)
        requires
            forall|s: Scraper<'a>| #[trigger] call_requires(scrape, (s,)),
        ensures
            matches@.len() == 0 ==> (r matches Ok(o) && o is None),
            matches@.len() == 1 ==> ((r matches Ok(o) && o matches Some(t) && call_ensures(
                scrape,
                (matches@[0],),
                Ok(t),
            )) || (r matches Err(e) && call_ensures(scrape, (matches@[0],), Err(e)))),
            matches@.len() >= 2 ==> (r matches Err(e) && (call_ensures(
                scrape,
                (matches@[0],),
                Err(e),
            ) || (is_optional_got_multiple(e, selection@) && exists|t: T|
                call_ensures(scrape, (matches@[0],), Ok(t))))),
    {
        if matches.len() == 0 {
            return Ok(None);
        }
        match scrape(matches[0]) {
            Err(e) => Err(e),
            Ok(first) => {
                proof {
                    assert(call_ensures(scrape, (matches@[0],), Ok(first)));
                }
                if matches.len() > 1 {
                    Err(
                        ScrapeError::ExpectedOptionalGotMultiple {
                            selection: selection.to_owned(),
                        },
                    )
                } else {
                    Ok(Some(first))
                }
            },
        }
    }

    /// Scrapes the concatenated descendant text of the match of
    /// `selection`, if there is one.
    pub fn optional_text(&self, selection: &str) -> (r: Result<Option<String>, ScrapeError>)
        ensures
            r is Ok ==> selector_ok(selection@),
            !selector_ok(selection@) ==> (r matches Err(e) && is_invalid_selection(e, selection@)),
            selector_ok(selection@) ==> (r matches Err(e) ==> is_optional_got_multiple(
                e,
                selection@,
            )),
            r matches Err(e) ==> is_invalid_selection(e, selection@) || is_optional_got_multiple(
                e,
                selection@,
            ),
    {
        self.optional(
            selection,
            scrape_text,
        )
    }

    /// Scrapes the serialized inner markup of the match of `selection`, if
    /// there is one.
    pub fn optional_html(&self, selection: &str) -> (r: Result<Option<String>, ScrapeError>)
        ensures
            r is Ok ==> selector_ok(selection@),
            !selector_ok(selection@) ==> (r matches Err(e) && is_invalid_selection(e, selection@)),
            selector_ok(selection@) ==> (r matches Err(e) ==> is_optional_got_multiple(
                e,
                selection@,
            )),
            r matches Err(e) ==> is_invalid_selection(e, selection@) || is_optional_got_multiple(
                e,
                selection@,
            ),
    {
        self.optional(
            selection,
            scrape_html,
        )
    }
}

} // verus!

//! Text extraction from an HTML document, scoped by a CSS selector.
//!
//! Parsing the markup, compiling the selector and matching it are done by the
//! `scraper` crate; this module decides what comes of their results.
use vstd::prelude::*;

use crate::{ErrorKind, Failure};

verus! {

#[verifier::external_type_specification]
#[verifier::external_body]
pub struct ExHtml(scraper::Html);

#[verifier::external_type_specification]
#[verifier::external_body]
pub struct ExSelector(scraper::Selector);

/// What compiling `selector` reports: `None` where it compiles, else the text of
/// the error.
pub uninterp spec fn selector_error(selector: Seq<char>) -> Option<Seq<char>>;

/// In the document parsed from `html`, the first element that `selector`
/// matches, in the order in which the parsed tree stores its nodes (the order the
/// parser created them in: document order, except where the parser moved nodes,
/// as it does with content misplaced inside a table), given as the text nodes
/// under it in a depth-first walk; `None` where no element matches.
pub uninterp spec fn first_match_texts(html: Seq<char>, selector: Seq<char>) -> Option<Seq<Seq<char>>>;

/// Relies on `scraper::Html::parse_document`, which never fails: malformed
/// markup is recovered from as browsers do.
#[verifier::external_body]
fn parse_markup(html: &str) -> scraper::Html {
    scraper::Html::parse_document(html)
}

/// Relies on `scraper::Selector::parse`: it fails exactly on the selectors named
/// by `selector_error`, and the error's text is what that name gives.
#[verifier::external_body]
fn compile_selector(selector: &str) -> (r: Result<scraper::Selector, String>)
    ensures
        match selector_error(selector@) {
            None => r is Ok,
            Some(m) => r is Err && r->Err_0@ == m,
        },
{
    scraper::Selector::parse(selector).map_err(|e| e.to_string())
}

/// A parsed HTML document, together with the markup it was parsed from.
pub struct Document {
    tree: scraper::Html,
    markup: Ghost<Seq<char>>,
}

/// A compiled CSS selector, together with the text it was compiled from.
pub struct CssSelector {
    compiled: scraper::Selector,
    source: Ghost<Seq<char>>,
}

impl Document {
    /// The markup this document was parsed from.
    pub closed spec fn markup(&self) -> Seq<char> {
        self.markup@
    }

    /// Parses `html` as a whole document.
    pub fn parse(html: &str) -> (r: Document)
        ensures
            r.markup() == html@,
    {
        Document { tree: parse_markup(html), markup: Ghost(html@) }
    }
}

impl CssSelector {
    /// The text this selector was compiled from.
    pub closed spec fn source(&self) -> Seq<char> {
        self.source@
    }

    /// Compiles `selector`; on failure, returns the compiler's message.
    pub fn parse(selector: &str) -> (r: Result<CssSelector, String>)
        ensures
            match selector_error(selector@) {
                None => r is Ok && r->Ok_0.source() == selector@,
                Some(m) => r is Err && r->Err_0@ == m,
            },
    {
        match compile_selector(selector) {
            Ok(compiled) => Ok(CssSelector { compiled, source: Ghost(selector@) }),
            Err(m) => Err(m),
        }
    }
}

/// Relies on `scraper::Html::select`, which walks the nodes in the order the
/// tree stores them, and `scraper::ElementRef::text`: the first element that the
/// selector matches, handed out as its text nodes, one `String` each. A
/// `Document` is built only by `Document::parse` and a `CssSelector` only by
/// `CssSelector::parse`, so the tree is the one parsed from `markup()` and the
/// selector the one compiled from `source()`.
#[verifier::external_body]
fn select_first_texts(document: &Document, selector: &CssSelector) -> (r: Option<Vec<String>>)
    ensures
        match first_match_texts(document.markup(), selector.source()) {
            None => r is None,
            Some(ts) => r is Some && r->Some_0@.map_values(|t: String| t@) == ts,
        },
{
    document.tree.select(&selector.compiled).next().map(|e| e.text().map(|t| t.to_string()).collect())
}

/// Joins `pieces` in order, with nothing between them.
pub fn join_texts(pieces: &Vec<String>) -> (r: String)
    ensures
        r@ == pieces@.map_values(|t: String| t@).flatten(),
{
    let ghost ts = pieces@.map_values(|t: String| t@);
    let mut joined = String::new();
    let mut i: usize = 0;
    while i < pieces.len()
        invariant
            i <= pieces@.len(),
            ts == pieces@.map_values(|t: String| t@),
            joined@ == ts.subrange(0, i as int).flatten_alt(),
        decreases pieces@.len() - i,
    {
        joined.append(pieces[i].as_str());
        proof {
            let next = ts.subrange(0, i + 1);
            assert(next.drop_last() =~= ts.subrange(0, i as int));
            assert(next.last() == pieces@[i as int]@);
        }
        i = i + 1;
    }
    proof {
        assert(ts.subrange(0, i as int) =~= ts);
        ts.lemma_flatten_and_flatten_alt_are_equivalent();
    }
    joined
}

/// Prefix of the message given when a selector does not compile.
pub open spec fn selector_failure_prefix() -> Seq<char> {
    "Unable to parse selector: "@
}

/// Message given when no text stands at a selector.
pub open spec fn no_text_message() -> Seq<char> {
    "No text available at selector"@
}

/// What extraction yields from what compiling the selector reported
/// (`selector_failure`) and the text nodes of its first match (`texts`): a
/// selector that does not compile is reported first, whatever the document holds;
/// then the text nodes joined with no delimiter, where there is a match and its
/// text is not empty.
pub open spec fn extraction_from(
    selector_failure: Option<Seq<char>>,
    texts: Option<Seq<Seq<char>>>,
) -> Result<Seq<char>, Failure> {
    match selector_failure {
        Some(m) => Err(Failure::ParseHtml(selector_failure_prefix() + m)),
        None => match texts {
            Some(ts) => if ts.flatten().len() > 0 {
                Ok(ts.flatten())
            } else {
                Err(Failure::ParseHtml(no_text_message()))
            },
            None => Err(Failure::ParseHtml(no_text_message())),
        },
    }
}

/// What extracting text from `html` at `selector` yields.
pub open spec fn extraction(html: Seq<char>, selector: Seq<char>) -> Result<Seq<char>, Failure> {
    extraction_from(selector_error(selector), first_match_texts(html, selector))
}

/// A selector that does not compile is reported as a parse failure carrying
/// the compiler's message, and what the document holds plays no part in it.
pub proof fn lemma_bad_selector_reported_first(html: Seq<char>, other: Seq<char>, selector: Seq<char>)
    requires
        selector_error(selector) is Some,
    ensures
        extraction(html, selector) == Err::<Seq<char>, Failure>(
            Failure::ParseHtml(selector_failure_prefix() + selector_error(selector)->Some_0),
        ),
        extraction(html, selector) == extraction(other, selector),
{
}

/// A selector that compiles but matches no element yields the parse failure
/// saying that no text is available.
pub proof fn lemma_no_match_is_no_text(html: Seq<char>, selector: Seq<char>)
    requires
        selector_error(selector) is None,
        first_match_texts(html, selector) is None,
    ensures
        extraction(html, selector) == Err::<Seq<char>, Failure>(
            Failure::ParseHtml(no_text_message()),
        ),
{
}

/// Where the first matching element has text, extraction returns exactly the
/// concatenation of its text nodes, in order and with no delimiter; and
/// extraction never succeeds with an empty text.
pub proof fn lemma_match_text_returned(html: Seq<char>, selector: Seq<char>)
    ensures
        selector_error(selector) is None && first_match_texts(html, selector) is Some
            && first_match_texts(html, selector)->Some_0.flatten().len() > 0 ==> extraction(
            html,
            selector,
        ) == Ok::<Seq<char>, Failure>(first_match_texts(html, selector)->Some_0.flatten()),
        extraction(html, selector) is Ok ==> extraction(html, selector)->Ok_0.len() > 0,
{
}

/// Decides what extraction yields, given what compiling the selector reported
/// (`selector_failure`, its message where it failed) and the text nodes of the
/// first element that it matched (`texts`, `None` where none matched; not looked
/// at where the selector failed).
pub fn text_from_match(selector_failure: Option<String>, texts: Option<Vec<String>>) -> (r: Result<
    String,
    ErrorKind,
>)
    ensures
        crate::outcome(r) == extraction_from(
            match selector_failure {
                Some(m) => Some(m@),
                None => None,
            },
            match texts {
                Some(ts) => Some(ts@.map_values(|t: String| t@)),
                None => None,
            },
        ),
{
    if let Some(m) = selector_failure {
        let detail = String::from_str("Unable to parse selector: ").concat(m.as_str());
        return Err(ErrorKind::ParseHtml(detail));
    }
    match texts {
        Some(pieces) => {
            let text = join_texts(&pieces);
            if text.as_str().is_empty() {
                Err(ErrorKind::ParseHtml(String::from_str("No text available at selector")))
            } else {
                Ok(text)
            }
        },
        None => Err(ErrorKind::ParseHtml(String::from_str("No text available at selector"))),
    }
}

/// Extracts the text of the first element of `html` that `selector` matches.
pub fn extract_text_from_html(html: &str, selector: &str) -> (r: Result<String, ErrorKind>)
    ensures
        crate::outcome(r) == extraction(html@, selector@),
{
    match CssSelector::parse(selector) {
        Err(m) => text_from_match(Some(m), None),
        Ok(compiled) => {
            let document = Document::parse(html);
            text_from_match(None, select_first_texts(&document, &compiled))
        },
    }
}

} // verus!

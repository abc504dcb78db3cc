//! Content extraction: the page title and the most specific content region
//! of an HTML document. The document is parsed by the `select` crate; what
//! that parser yields for a given tag name is a fixed function of the HTML
//! text, named here and never restated. The fallback chain over those
//! answers — article, then main, then body, then the whole text — is the
//! library's own verified logic.

use vstd::prelude::*;

verus! {

/// The text of the first element with the given tag name in the parsed HTML,
/// in document order, or `None` when no such element exists.
pub uninterp spec fn first_tag_text(tag: Seq<char>, html: Seq<char>) -> Option<Seq<char>>;

/// The inner HTML (descendant markup, without the element's own tags) of the
/// first element with the given tag name in the parsed HTML, or `None` when
/// no such element exists.
pub uninterp spec fn first_tag_inner_html(tag: Seq<char>, html: Seq<char>) -> Option<Seq<char>>;

/// Relies on the `select` crate: `Document::from` parses the HTML, and
/// `find(Name(tag)).next()` yields the first element with that tag name in
/// document order; `Node::text` is its concatenated text. The answer depends
/// on the HTML text and the tag alone.
#[verifier::external_body]
fn select_first_text(html: &str, tag: &str) -> (r: Option<String>)
    ensures
        r matches Some(s) ==> first_tag_text(tag@, html@) == Some(s@),
        r is None ==> first_tag_text(tag@, html@) is None,
{
    select::document::Document::from(html)
        .find(select::predicate::Name(tag))
        .next()
        .map(|node| node.text())
}

/// Relies on the `select` crate: `Document::from` parses the HTML, and
/// `find(Name(tag)).next()` yields the first element with that tag name in
/// document order; `Node::inner_html` is its descendant markup without the
/// element's own opening and closing tags. The answer depends on the HTML
/// text and the tag alone.
#[verifier::external_body]
fn select_first_inner_html(html: &str, tag: &str) -> (r: Option<String>)
    ensures
        r matches Some(s) ==> first_tag_inner_html(tag@, html@) == Some(s@),
        r is None ==> first_tag_inner_html(tag@, html@) is None,
{
    select::document::Document::from(html)
        .find(select::predicate::Name(tag))
        .next()
        .map(|node| node.inner_html())
}

/// The extracted title: the first `<title>` element's text, or `"untitled"`
/// when the document has none.
pub open spec fn extracted_title(html: Seq<char>) -> Seq<char> {
    match first_tag_text("title"@, html) {
        Some(t) => t,
        None => "untitled"@,
    }
}

/// The extracted content region: the first `<article>` element's inner HTML;
/// else the first `<main>` element's; else the first `<body>` element's; else
/// the whole HTML text.
pub open spec fn extracted_content(html: Seq<char>) -> Seq<char> {
    match first_tag_inner_html("article"@, html) {
        Some(c) => c,
        None => match first_tag_inner_html("main"@, html) {
            Some(c) => c,
            None => match first_tag_inner_html("body"@, html) {
                Some(c) => c,
                None => html,
            },
        },
    }
}

/// Extracts the page title, defaulting to `"untitled"`.
pub fn extract_title(html: &str) -> (r: String)
    ensures
        r@ == extracted_title(html@),
{
    match select_first_text(html, "title") {
        Some(t) => t,
        None => {
            let t: String = "untitled".to_owned();
            t
        },
    }
}

/// Extracts the content region along the fallback chain.
pub fn extract_content(html: &str) -> (r: String)
    ensures
        r@ == extracted_content(html@),
{
    if let Some(c) = select_first_inner_html(html, "article") {
        c
    } else if let Some(c) = select_first_inner_html(html, "main") {
        c
    } else if let Some(c) = select_first_inner_html(html, "body") {
        c
    } else {
        let whole: String = html.to_owned();
        whole
    }
}

/// When the document has an `<article>` element, the extractor takes that
/// element's inner HTML, whatever `<main>` or `<body>` hold.
pub proof fn lemma_article_preferred(html: Seq<char>, c: Seq<char>)
    requires
        first_tag_inner_html("article"@, html) == Some(c),
    ensures
        extracted_content(html) == c,
{
}

/// When the document has none of `<article>`, `<main>` and `<body>`, the
/// extractor falls back to the whole HTML text.
pub proof fn lemma_whole_document_fallback(html: Seq<char>)
    requires
        first_tag_inner_html("article"@, html) is None,
        first_tag_inner_html("main"@, html) is None,
        first_tag_inner_html("body"@, html) is None,
    ensures
        extracted_content(html) == html,
{
}

/// When the document has no `<title>` element, the extracted title is
/// exactly `"untitled"`.
pub proof fn lemma_untitled_default(html: Seq<char>)
    requires
        first_tag_text("title"@, html) is None,
    ensures
        extracted_title(html) == "untitled"@,
{
}

} // verus!

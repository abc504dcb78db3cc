//! HTML-to-markdown conversion. The transformation itself is the `html2md`
//! crate's; its output for a given fragment is a fixed function of the
//! fragment text, named here so that callers' contracts can speak of it.

use vstd::prelude::*;

verus! {

/// The markdown text that the converter produces for an HTML fragment.
pub uninterp spec fn markdown_of(html: Seq<char>) -> Seq<char>;

/// Relies on `html2md::parse_html`: best-effort markdown for an HTML
/// fragment, a fixed function of the fragment text alone; it never fails.
#[verifier::external_body]
pub(crate) fn to_markdown(html: &str) -> (r: String)
    ensures
        r@ == markdown_of(html@),
{
    html2md::parse_html(html)
}

} // verus!

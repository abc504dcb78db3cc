//! The per-URL pipeline: URL validation, the HTTP status rule, and the
//! assembly of one output document from a fetched body. Network and file I/O
//! stay with the caller; every decision and every produced byte is specified
//! here.

use vstd::prelude::*;
use vstd::string::{StrSliceExecFns, StringExecFns};
use crate::clock::today_utc;
use crate::convert::{markdown_of, to_markdown};
use crate::extract::{extract_content, extract_title, extracted_content, extracted_title};
use crate::front::{document_text, render_document};
use crate::slug::{slug_of, slugify};
use crate::text::{chars_of, dec_seq, u16_to_string};

verus! {

/// Why one URL's run failed. Directory creation and file writes are the
/// caller's; it reports them as `Io`.
#[derive(Debug, Clone, PartialEq, Eq)]
pub enum PageError {
    /// The URL does not start with `http://` or `https://`.
    InvalidUrl,
    /// DNS, connection, TLS or read failure, with the transport's own words.
    Transport(String),
    /// The response status was outside the 2xx range.
    HttpStatus(u16),
    /// Directory creation or file write failure, with the system's own words.
    Io(String),
}

/// `s` begins with `p`.
pub open spec fn starts_with(s: Seq<char>, p: Seq<char>) -> bool {
    s.len() >= p.len() && s.subrange(0, p.len() as int) == p
}

/// A URL the pipeline accepts: one that begins with `http://` or `https://`.
pub open spec fn url_valid(url: Seq<char>) -> bool {
    starts_with(url, "http://"@) || starts_with(url, "https://"@)
}

/// An HTTP status the pipeline accepts: the 2xx range.
pub open spec fn status_ok(status: u16) -> bool {
    200 <= status < 300
}

/// The error line for a failed URL.
pub open spec fn error_text(e: PageError) -> Seq<char> {
    match e {
        PageError::InvalidUrl => "URL must start with http:// or https://"@,
        PageError::Transport(m) => "transport error: "@ + m@,
        PageError::HttpStatus(c) => "HTTP error: "@ + dec_seq(c as int),
        PageError::Io(m) => "I/O error: "@ + m@,
    }
}

impl PageError {
    /// The message reported for this error.
    pub fn message(&self) -> (r: String)
        ensures
            r@ == error_text(*self),
    {
        match self {
            PageError::InvalidUrl => {
                let m: String = "URL must start with http:// or https://".to_owned();
                m
            },
            PageError::Transport(m) => {
                let mut out: String = "transport error: ".to_owned();
                out.append(m.as_str());
                out
            },
            PageError::HttpStatus(c) => {
                let mut out: String = "HTTP error: ".to_owned();
                let digits = u16_to_string(*c);
                out.append(digits.as_str());
                out
            },
            PageError::Io(m) => {
                let mut out: String = "I/O error: ".to_owned();
                out.append(m.as_str());
                out
            },
        }
    }
}

fn has_prefix(s: &Vec<char>, p: &Vec<char>) -> (r: bool)
    ensures
        r == starts_with(s@, p@),
{
    if s.len() < p.len() {
        return false;
    }
    let mut i: usize = 0;
    while i < p.len()
        invariant
            i <= p.len(),
            s@.len() >= p@.len(),
            forall|j: int| 0 <= j < i ==> s@[j] == p@[j],
        decreases p.len() - i,
    {
        if s[i] != p[i] {
            assert(s@.subrange(0, p@.len() as int)[i as int] == s@[i as int]);
            return false;
        }
        i = i + 1;
    }
    assert(s@.subrange(0, p@.len() as int) =~= p@);
    true
}

/// Whether the pipeline accepts this URL.
pub fn check_url(url: &str) -> (r: bool)
    ensures
        r == url_valid(url@),
{
    let cs = chars_of(url);
    let http = chars_of("http://");
    if has_prefix(&cs, &http) {
        return true;
    }
    let https = chars_of("https://");
    has_prefix(&cs, &https)
}

/// Accepts or refuses a URL before any fetch: `Ok` exactly when the URL
/// begins with `http://` or `https://`, else `InvalidUrl`.
pub fn validate_url(url: &str) -> (r: Result<(), PageError>)
    ensures
        url_valid(url@) ==> r == Ok::<(), PageError>(()),
        !url_valid(url@) ==> r == Err::<(), PageError>(PageError::InvalidUrl),
{
    if check_url(url) {
        Ok(())
    } else {
        Err(PageError::InvalidUrl)
    }
}

/// Whether the pipeline accepts this HTTP status.
pub fn check_status(status: u16) -> (r: bool)
    ensures
        r == status_ok(status),
{
    200 <= status && status < 300
}

/// The file name for a page with this HTML: the title's slug and the `.md`
/// suffix.
pub open spec fn file_name_text(html: Seq<char>) -> Seq<char> {
    slug_of(extracted_title(html)) + ".md"@
}

/// The document written for a page: front matter over the extracted title,
/// the source URL and the date, then the markdown of the extracted content.
pub open spec fn page_text(url: Seq<char>, html: Seq<char>, date: Seq<char>) -> Seq<char> {
    document_text(extracted_title(html), url, date, markdown_of(extracted_content(html)))
}

/// Builds the output for one fetched page: its file name and its full text,
/// for the given date.
pub fn build_page(url: &str, html: &str, date: &str) -> (r: (String, String))
    ensures
        r.0@ == file_name_text(html@),
        r.1@ == page_text(url@, html@, date@),
{
    let title = extract_title(html);
    let content_html = extract_content(html);
    let markdown = to_markdown(content_html.as_str());
    let mut name = slugify(title.as_str());
    name.append(".md");
    let doc = render_document(title.as_str(), url, date, markdown.as_str());
    (name, doc)
}

/// One finished page: what to call the file, what to write into it, and the
/// date the front matter carries.
#[derive(Debug, Clone, PartialEq, Eq)]
pub struct PageDoc {
    /// The output file's name, `<slug>.md`.
    pub file_name: String,
    /// The document text, front matter and body.
    pub content: String,
    /// The date written into the front matter, `YYYY-MM-DD`.
    pub date: String,
}

/// Decides one URL's outcome from its response, dated today. A 2xx status
/// yields the finished page; any other status is refused with `HttpStatus`.
/// The date field carries whatever day the clock gave; file name and content
/// are pinned relative to it.
pub fn page_from_response(url: &str, status: u16, body: &str) -> (r: Result<PageDoc, PageError>)
    ensures
        status_ok(status) ==> (r matches Ok(p) && p.file_name@ == file_name_text(body@)
            && p.content@ == page_text(url@, body@, p.date@)),
        !status_ok(status) ==> r == Err::<PageDoc, PageError>(PageError::HttpStatus(status)),
{
    if !check_status(status) {
        return Err(PageError::HttpStatus(status));
    }
    let date = today_utc();
    let (name, content) = build_page(url, body, date.as_str());
    Ok(PageDoc { file_name: name, content, date })
}

} // verus!

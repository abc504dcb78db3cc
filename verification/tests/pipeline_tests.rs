use url_to_md::front::escape_quotes;
use url_to_md::front::render_document;
use url_to_md::pipeline::{
    build_page, check_status, check_url, page_from_response, validate_url, PageError,
};
use url_to_md::text::u16_to_string;

#[test]
fn url_scheme_check() {
    assert!(check_url("http://example.com"));
    assert!(check_url("https://example.com/blog-post"));
    assert!(check_url("http://"));
    assert!(!check_url("ftp://example.com"));
    assert!(!check_url("example.com"));
    assert!(!check_url(""));
    assert!(!check_url("httpx://example.com"));
}

#[test]
fn invalid_url_refused_with_its_error() {
    assert_eq!(validate_url("ftp://example.com"), Err(PageError::InvalidUrl));
    assert_eq!(validate_url("https://example.com"), Ok(()));
}

#[test]
fn status_range_check() {
    assert!(check_status(200));
    assert!(check_status(204));
    assert!(check_status(299));
    assert!(!check_status(199));
    assert!(!check_status(300));
    assert!(!check_status(404));
    assert!(!check_status(500));
}

#[test]
fn decimal_rendering() {
    assert_eq!(u16_to_string(0), "0");
    assert_eq!(u16_to_string(7), "7");
    assert_eq!(u16_to_string(404), "404");
    assert_eq!(u16_to_string(65535), "65535");
}

#[test]
fn quotes_escaped() {
    assert_eq!(escape_quotes("He said \"hi\""), "He said \\\"hi\\\"");
    assert_eq!(escape_quotes("no quotes"), "no quotes");
    assert_eq!(escape_quotes("\"\""), "\\\"\\\"");
    assert_eq!(escape_quotes(""), "");
}

#[test]
fn error_messages() {
    assert_eq!(
        PageError::InvalidUrl.message(),
        "URL must start with http:// or https://"
    );
    assert_eq!(PageError::HttpStatus(404).message(), "HTTP error: 404");
    assert_eq!(
        PageError::Transport(String::from("no route")).message(),
        "transport error: no route"
    );
    assert_eq!(
        PageError::Io(String::from("disk full")).message(),
        "I/O error: disk full"
    );
}

#[test]
fn rendered_document_exact() {
    let doc = render_document("A \"B\"", "https://x.test/a", "2024-01-02", "body text");
    assert_eq!(
        doc,
        "---\ntitle: \"A \\\"B\\\"\"\nsource: \"https://x.test/a\"\ndate: \"2024-01-02\"\n---\n\nbody text"
    );
}

#[test]
fn built_page_for_fixed_date() {
    let html =
        "<html><head><title>Hi</title></head><body><article><p>Hello</p></article></body></html>";
    let url = "https://example.com/post";
    let (name, content) = build_page(url, html, "2024-01-02");
    assert_eq!(name, "hi.md");
    let (front, body) = content.split_once("---\n\n").expect("front matter ends");
    assert_eq!(
        front,
        "---\ntitle: \"Hi\"\nsource: \"https://example.com/post\"\ndate: \"2024-01-02\"\n"
    );
    assert!(!body.contains("<p>"));
    assert_eq!(body.trim(), "Hello");
}

#[test]
fn successful_response_gives_page() {
    let html =
        "<html><head><title>Hi</title></head><body><article><p>Hello</p></article></body></html>";
    let url = "https://example.com/post";
    let page = page_from_response(url, 200, html).expect("2xx must succeed");
    assert_eq!(page.file_name, "hi.md");
    // Nothing is promised of the clock's value, but in this process it must
    // have produced a calendar date that the content embeds verbatim.
    assert_eq!(page.date.len(), 10);
    assert!(page
        .date
        .chars()
        .all(|c| c.is_ascii_digit() || c == '-'));
    let expected_front = format!(
        "---\ntitle: \"Hi\"\nsource: \"{}\"\ndate: \"{}\"\n---\n\n",
        url, page.date
    );
    assert!(page.content.starts_with(&expected_front));
    let body = &page.content[expected_front.len()..];
    assert_eq!(body.trim(), "Hello");
}

#[test]
fn failed_status_reported_and_next_url_unaffected() {
    // One URL's 404 yields an error and no document; a later URL in the same
    // run still succeeds.
    let bad = page_from_response("https://example.com/missing", 404, "ignored");
    assert_eq!(bad, Err(PageError::HttpStatus(404)));

    let html = "<html><head><title>Second</title></head><body><article><p>ok</p></article></body></html>";
    let good = page_from_response("https://example.com/second", 200, html)
        .expect("valid URL still succeeds");
    assert_eq!(good.file_name, "second.md");
}

#[test]
fn untitled_page_gets_untitled_slug() {
    let html = "<html><head></head><body><p>x</p></body></html>";
    let (name, content) = build_page("http://a.test/", html, "2024-01-02");
    assert_eq!(name, "untitled.md");
    assert!(content.contains("title: \"untitled\""));
}

#[test]
fn empty_slug_still_names_a_file() {
    // A title of only separators slugifies to the empty string; the file
    // name is then just the suffix. Kept as the pipeline's accepted
    // limitation.
    let html = "<html><head><title>!!!</title></head><body><p>x</p></body></html>";
    let (name, _) = build_page("http://a.test/", html, "2024-01-02");
    assert_eq!(name, ".md");
}

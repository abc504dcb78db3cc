use url_to_md::extract::{extract_content, extract_title};

#[test]
fn title_text_extracted() {
    let html = "<html><head><title>Hi</title></head><body><p>x</p></body></html>";
    assert_eq!(extract_title(html), "Hi");
}

#[test]
fn missing_title_defaults_to_untitled() {
    let html = "<html><head></head><body><p>x</p></body></html>";
    assert_eq!(extract_title(html), "untitled");
}

#[test]
fn first_title_wins() {
    let html = "<html><head><title>One</title><title>Two</title></head></html>";
    assert_eq!(extract_title(html), "One");
}

#[test]
fn article_preferred_over_main_and_body() {
    let html = "<html><body><p>around</p><main><p>from main</p></main>\
                <article><p>from article</p></article></body></html>";
    let content = extract_content(html);
    assert_eq!(content, "<p>from article</p>");
}

#[test]
fn main_preferred_over_body() {
    let html = "<html><body><p>around</p><main><p>from main</p></main></body></html>";
    let content = extract_content(html);
    assert_eq!(content, "<p>from main</p>");
}

#[test]
fn body_when_no_article_or_main() {
    let html = "<html><body><p>only body</p></body></html>";
    let content = extract_content(html);
    assert_eq!(content, "<p>only body</p>");
}

#[test]
fn fragment_falls_back_to_synthesized_body() {
    // The parser builds a full document even for a fragment, so a body
    // element exists and the chain stops there rather than at the whole
    // original text.
    let content = extract_content("<p>bare fragment</p>");
    assert_eq!(content, "<p>bare fragment</p>");
}

#[test]
fn inner_html_not_outer() {
    // The wrapping tag itself must not appear in the extracted region.
    let html = "<html><body><article><p>a</p></article></body></html>";
    let content = extract_content(html);
    assert!(!content.contains("<article"));
    assert!(content.contains("<p>a</p>"));
}

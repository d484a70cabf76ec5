use cosmicding::escape::{html_escape, html_unescape};
use cosmicding::models::bookmarks::Bookmark;
use cosmicding::utils::bookmark_parser::netscape::{
    generate_netscape_html, parse_netscape_html, BookmarkFormat,
    BookmarkIO, ParseError,
};

fn chars(s: &str) -> Vec<char> {
    s.chars().collect()
}

fn text(v: &[char]) -> String {
    v.iter().collect()
}

fn bookmark(url: &str, title: &str, description: &str, tags: &[&str], date: Option<&str>) -> Bookmark {
    Bookmark::new(
        Some(1),
        Some(7),
        url.to_string(),
        title.to_string(),
        description.to_string(),
        String::new(),
        String::new(),
        String::new(),
        String::new(),
        String::new(),
        String::new(),
        false,
        false,
        false,
        tags.iter().map(|t| t.to_string()).collect(),
        date.map(|d| d.to_string()),
        None,
        Some(true),
    )
}

#[test]
fn escapes_markup_characters() {
    assert_eq!(text(&html_escape(&chars("a & b <c> \"d\" 'e'"))), "a &amp; b &lt;c&gt; &quot;d&quot; &#39;e&#39;");
}

#[test]
fn unescapes_entities() {
    assert_eq!(text(&html_unescape(&chars("&lt;b&gt; &amp;amp; &#x27;x&#39; &apos;"))), "<b> &amp; 'x' '");
}

#[test]
fn escape_then_unescape_gives_the_text_back() {
    for s in ["", "plain", "Tom & Jerry <3", "&amp; already", "quote \" and ' apostrophe"] {
        assert_eq!(text(&html_unescape(&html_escape(&chars(s)))), s);
    }
}

#[test]
fn parses_entries_with_description_tags_and_date() {
    let doc = "<!DOCTYPE NETSCAPE-Bookmark-file-1>\n<DL><p>\n    <DT><A HREF=\"https://example.com\" ADD_DATE=\"1704164645\" TAGS=\"rust, verus,,\">Example &amp; Co</A>\n    <DD>A &lt;site&gt;\n    <DT><a href=\"https://second.org\">Second</a>\n</DL><p>\n";
    let bookmarks = parse_netscape_html(doc).unwrap();
    assert_eq!(bookmarks.len(), 2);
    assert_eq!(bookmarks[0].url, "https://example.com");
    assert_eq!(bookmarks[0].title, "Example & Co");
    assert_eq!(bookmarks[0].description, "A <site>");
    assert_eq!(bookmarks[0].tag_names, vec!["rust".to_string(), "verus".to_string()]);
    assert_eq!(bookmarks[0].date_added.as_deref(), Some("2024-01-02T03:04:05Z"));
    assert_eq!(bookmarks[0].id, None);
    assert_eq!(bookmarks[0].is_owner, None);
    assert_eq!(bookmarks[1].url, "https://second.org");
    assert_eq!(bookmarks[1].title, "Second");
    assert_eq!(bookmarks[1].description, "");
    assert!(bookmarks[1].tag_names.is_empty());
    assert_eq!(bookmarks[1].date_added, None);
}

#[test]
fn a_document_without_entries_has_no_bookmarks() {
    assert!(parse_netscape_html("<html><body>nothing</body></html>").unwrap().is_empty());
    assert!(parse_netscape_html("").unwrap().is_empty());
}

#[test]
fn entry_without_href_is_refused() {
    let doc = "<DT><A HREF=\"x\"></A>\n<DT><A HREF=x NAME=\"n\">t</A>\n";
    // the second line's HREF has no quotes: the value runs to the next space
    let bookmarks = parse_netscape_html(doc).unwrap();
    assert_eq!(bookmarks.len(), 2);
    assert_eq!(bookmarks[1].url, "x");
    // an empty unquoted value followed by a space still names the attribute
    let empty = parse_netscape_html("<DT><A HREF= NAME=\"n\">t</A>\n").unwrap();
    assert_eq!(empty[0].url, "");
    // a value left empty at the end of the tag is dropped, and with it the HREF
    let missing = "<DT><A HREF=>t</A>\n";
    assert!(matches!(parse_netscape_html(missing), Err(ParseError::MissingHref)));
    let open_quote = "<DT><A HREF=\">t</A>\n";
    assert!(matches!(parse_netscape_html(open_quote), Err(ParseError::MissingHref)));
}

#[test]
fn unclosed_anchor_tag_is_refused() {
    let doc = "<DT><A HREF=\"https://a.b\"\n";
    assert!(matches!(parse_netscape_html(doc), Err(ParseError::UnclosedAnchorTag)));
}

#[test]
fn missing_closing_anchor_is_refused() {
    let doc = "<DT><A HREF=\"https://a.b\">title\n";
    assert!(matches!(parse_netscape_html(doc), Err(ParseError::NoClosingAnchor)));
}

#[test]
fn error_messages() {
    assert_eq!(ParseError::NoAnchorTag.message(), "No anchor tag found");
    assert_eq!(ParseError::MissingHref.message(), "Missing HREF attribute");
    assert_eq!(ParseError::NoClosingAnchor.message(), "No closing </A> tag");
}

#[test]
fn a_title_closed_before_its_tag_ends_has_no_closing_anchor() {
    // the closing tag comes before the `>` that ends the opening tag
    let doc = "<DT><A HREF=\"u\" </A>>\n";
    assert!(matches!(parse_netscape_html(doc), Err(ParseError::NoClosingAnchor)));
    let only = "<DT><A HREF=\"</A>\"";
    assert!(matches!(parse_netscape_html(only), Err(ParseError::NoClosingAnchor)));
    assert!(parse_netscape_html("<DT><A HREF=\"u\">t</A>\n").is_ok());
}

#[test]
fn generates_the_netscape_document() {
    let b = bookmark("https://a.b/?x=1&y=2", "A <b>", "Desc", &["t1", "t2"], Some("2024-01-02T03:04:05Z"));
    let doc = generate_netscape_html(&[b]);
    assert_eq!(
        doc,
        "<!DOCTYPE NETSCAPE-Bookmark-file-1>\n<META HTTP-EQUIV=\"Content-Type\" CONTENT=\"text/html; charset=UTF-8\">\n<TITLE>Bookmarks</TITLE>\n<H1>Bookmarks</H1>\n<DL><p>\n    <DT><A HREF=\"https://a.b/?x=1&amp;y=2\" ADD_DATE=\"1704164645\" TAGS=\"t1,t2\">A &lt;b&gt;</A>\n    <DD>Desc\n</DL><p>\n"
    );
}

#[test]
fn writing_nothing_gives_header_and_footer() {
    let doc = BookmarkIO::generate(&[], BookmarkFormat::Netscape);
    assert!(doc.starts_with("<!DOCTYPE NETSCAPE-Bookmark-file-1>\n"));
    assert!(doc.ends_with("<DL><p>\n</DL><p>\n"));
}

#[test]
fn export_then_import_gives_the_bookmarks_back() {
    let written = vec![
        bookmark("https://one.example/path", "First & best", "About <this>", &["a", "b-c"], Some("2024-01-02T03:04:05Z")),
        bookmark("https://two.example", "Second", "", &[], None),
        bookmark("https://three.example", "", "Only a description", &["x"], Some("2024-01-02T04:04:05+01:00")),
    ];
    let doc = BookmarkIO::generate(&written, BookmarkFormat::Netscape);
    assert_eq!(BookmarkIO::detect_format(&doc), Some(BookmarkFormat::Netscape));
    let read = BookmarkIO::parse(&doc, BookmarkFormat::Netscape).unwrap();
    assert_eq!(read.len(), written.len());
    for (r, w) in read.iter().zip(written.iter()) {
        assert_eq!(r.url, w.url);
        assert_eq!(r.title, w.title);
        assert_eq!(r.description, w.description);
        assert_eq!(r.tag_names, w.tag_names);
    }
    assert_eq!(read[0].date_added.as_deref(), Some("2024-01-02T03:04:05Z"));
    assert_eq!(read[1].date_added, None);
    // the offset is normalised to UTC
    assert_eq!(read[2].date_added.as_deref(), Some("2024-01-02T03:04:05Z"));
}

#[test]
fn detects_netscape_documents_only() {
    assert_eq!(BookmarkIO::detect_format("<!DOCTYPE NETSCAPE-Bookmark-file-1>"), Some(BookmarkFormat::Netscape));
    assert_eq!(BookmarkIO::detect_format("x <DT><a href=\"y\">"), Some(BookmarkFormat::Netscape));
    assert_eq!(BookmarkIO::detect_format("{\"bookmarks\": []}"), None);
}

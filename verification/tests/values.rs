use cosmicding::app::config::SortOption;
use cosmicding::db::{
    decode_tags, encode_tags, order_by_clause, stored_bookmark_key, StoredBookmarkKey,
};
use cosmicding::models::bookmarks::Bookmark;
use cosmicding::escape::{html_escape, html_unescape};
use cosmicding::numbers::{i64_to_decimal, parse_i64, u64_digits};
use cosmicding::utils::json::{
    json_round_trip, parse_serde_json_value_to_raw_string, raw_string_from_json_text,
};
use serde_json::Value;

fn chars(s: &str) -> Vec<char> {
    s.chars().collect()
}

fn text(v: Vec<char>) -> String {
    v.into_iter().collect()
}

#[test]
fn json_values_read_back_as_plain_text() {
    assert_eq!(parse_serde_json_value_to_raw_string(&Value::String("hello".to_string())), "hello");
    assert_eq!(parse_serde_json_value_to_raw_string(&Value::from(5)), "5");
    assert_eq!(parse_serde_json_value_to_raw_string(&Value::Bool(true)), "true");
    assert_eq!(parse_serde_json_value_to_raw_string(&Value::Null), "null");
    assert_eq!(
        parse_serde_json_value_to_raw_string(&Value::String("two\nlines".to_string())),
        "two\nlines"
    );
}

#[test]
fn json_round_trip_of_texts() {
    assert_eq!(json_round_trip("plain text"), "plain text");
    assert_eq!(json_round_trip("a\nb"), "a\nb");
    assert_eq!(json_round_trip(""), "");
    // a lone line feed comes back empty
    assert_eq!(json_round_trip("\n"), "");
    // quotes and backslashes keep their escapes
    assert_eq!(json_round_trip("say \"hi\""), "say \\\"hi\\\"");
    assert_eq!(json_round_trip("tab\there"), "tab\\there");
}

#[test]
fn raw_json_text_is_unquoted() {
    assert_eq!(raw_string_from_json_text("\"quoted\""), "quoted");
    assert_eq!(raw_string_from_json_text("bare"), "bare");
    assert_eq!(raw_string_from_json_text("\"\\n\""), "");
    assert_eq!(raw_string_from_json_text("\"x\\ny\""), "x\ny");
    assert_eq!(raw_string_from_json_text("\""), "");
}

#[test]
fn decimal_numbers() {
    assert_eq!(parse_i64(&chars("12")), Some(12));
    assert_eq!(parse_i64(&chars("+7")), Some(7));
    assert_eq!(parse_i64(&chars("-9223372036854775808")), Some(i64::MIN));
    assert_eq!(parse_i64(&chars("9223372036854775807")), Some(i64::MAX));
    assert_eq!(parse_i64(&chars("9223372036854775808")), None);
    assert_eq!(parse_i64(&chars("")), None);
    assert_eq!(parse_i64(&chars("-")), None);
    assert_eq!(parse_i64(&chars("1a")), None);
    assert_eq!(parse_i64(&chars(" 1")), None);
    assert_eq!(text(i64_to_decimal(-42)), "-42");
    assert_eq!(text(i64_to_decimal(0)), "0");
    assert_eq!(text(i64_to_decimal(i64::MIN)), "-9223372036854775808");
    assert_eq!(text(u64_digits(u64::MAX)), "18446744073709551615");
}

#[test]
fn decimal_text_reads_back() {
    for x in [0i64, 1, -1, 1057049557, i64::MAX, i64::MIN] {
        assert_eq!(parse_i64(&i64_to_decimal(x)), Some(x));
    }
}

#[test]
fn html_entities() {
    assert_eq!(text(html_escape(&chars("<a href=\"x\">Tom & 'Jerry'</a>"))),
        "&lt;a href=&quot;x&quot;&gt;Tom &amp; &#39;Jerry&#39;&lt;/a&gt;");
    assert_eq!(text(html_unescape(&chars("&lt;b&gt; &amp;amp; &#x27; &apos; &#39;"))), "<b> &amp; ' ' '");
    let s = "5 > 3 && \"q\" < 'p'";
    assert_eq!(text(html_unescape(&html_escape(&chars(s)))), s);
}

#[test]
fn order_clauses() {
    assert_eq!(order_by_clause(SortOption::BookmarksDateNewest), "date_added DESC");
    assert_eq!(order_by_clause(SortOption::BookmarksDateOldest), "date_added ASC");
    assert_eq!(order_by_clause(SortOption::BookmarkAlphabeticalAscending), "title COLLATE NOCASE ASC");
    assert_eq!(order_by_clause(SortOption::BookmarkAlphabeticalDescending), "title COLLATE NOCASE DESC");
}

#[test]
fn stored_tags() {
    let tags = vec!["rust".to_string(), "verus".to_string()];
    assert_eq!(encode_tags(&tags), "rust verus");
    assert_eq!(decode_tags("rust verus"), tags);
    assert!(decode_tags("").is_empty());
    assert_eq!(encode_tags(&vec![]), "");
    assert_eq!(decode_tags(&encode_tags(&tags)), tags);
}

#[test]
fn stored_rows_of_bookmarks() {
    let mut b = Bookmark::new(
        Some(2),
        Some(77),
        "u".to_string(),
        "t".to_string(),
        String::new(),
        String::new(),
        String::new(),
        String::new(),
        String::new(),
        String::new(),
        String::new(),
        false,
        false,
        false,
        vec![],
        None,
        None,
        None,
    );
    assert_eq!(
        stored_bookmark_key(&b),
        StoredBookmarkKey::Instance { account_id: Some(2), instance_id: Some(77) }
    );
    b.id = Some(5);
    assert_eq!(stored_bookmark_key(&b), StoredBookmarkKey::Row(5));
}

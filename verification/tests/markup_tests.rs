use rrss::markup::{
    download_file_name, plain_text, replace_matches, strip_tags, MarkupError, FILE_NAME_SEPARATOR,
    TAG_PATTERN, UNTITLED_FILE_NAME, WHITESPACE_PATTERN,
};
use rrss::model::Item;

fn titled(titles: Option<Vec<&str>>) -> Item {
    Item {
        title: titles.map(|t| t.into_iter().map(|s| s.to_string()).collect()),
        link: Some("http://example.com/a.mp3".to_string()),
        description: None,
        enclosure: None,
        pub_date: None,
    }
}

#[test]
fn the_patterns() {
    assert_eq!(TAG_PATTERN, r"<\/?[a-z][a-z0-9]*[^<>]*>|<!--.*?-->");
    assert_eq!(WHITESPACE_PATTERN, r"\s+");
    assert_eq!(FILE_NAME_SEPARATOR, "-");
    assert_eq!(UNTITLED_FILE_NAME, "Unknown");
}

#[test]
fn replace_matches_replaces_every_match() {
    assert_eq!(replace_matches("a+", "caaandaab", "x"), Ok("cxndxb".to_string()));
    assert_eq!(replace_matches("z", "abc", "x"), Ok("abc".to_string()));
    assert_eq!(replace_matches("b", "abc", ""), Ok("ac".to_string()));
}

#[test]
fn replace_matches_refuses_a_bad_pattern() {
    assert_eq!(replace_matches("(", "abc", "x"), Err(MarkupError::BadPattern));
    assert_eq!(replace_matches("[a-", "abc", ""), Err(MarkupError::BadPattern));
}

#[test]
fn strip_tags_removes_tags_and_comments() {
    assert_eq!(strip_tags("<p>Hello <b>world</b></p>"), Ok("Hello world".to_string()));
    assert_eq!(strip_tags("a<!-- note -->b"), Ok("ab".to_string()));
    assert_eq!(strip_tags("<a href=\"http://x\">link</a>"), Ok("link".to_string()));
    assert_eq!(strip_tags("no tags"), Ok("no tags".to_string()));
    assert_eq!(strip_tags(""), Ok("".to_string()));
    assert_eq!(strip_tags("1 < 2 and 3 > 2"), Ok("1 < 2 and 3 > 2".to_string()));
}

#[test]
fn plain_text_decodes_entities() {
    assert_eq!(plain_text("Tom &amp; Jerry"), Ok("Tom & Jerry".to_string()));
    assert_eq!(plain_text("&quot;quoted&quot;"), Ok("\"quoted\"".to_string()));
    assert_eq!(plain_text("caf&#233;"), Ok("caf\u{e9}".to_string()));
}

#[test]
fn plain_text_decodes_before_it_strips() {
    assert_eq!(plain_text("&lt;p&gt;Hello&lt;/p&gt;"), Ok("Hello".to_string()));
    assert_eq!(plain_text("<p>Fish &amp; chips</p>"), Ok("Fish & chips".to_string()));
    assert_eq!(plain_text("Nothing to display"), Ok("Nothing to display".to_string()));
}

#[test]
fn file_name_collapses_whitespace() {
    assert_eq!(
        download_file_name(&titled(Some(vec!["Episode  12:\tThe   End"]))),
        Ok("Episode-12:-The-End".to_string())
    );
    assert_eq!(download_file_name(&titled(Some(vec!["a b", "c d"]))), Ok("a-b".to_string()));
    assert_eq!(download_file_name(&titled(Some(vec!["plain"]))), Ok("plain".to_string()));
    assert_eq!(download_file_name(&titled(Some(vec![" x\n"]))), Ok("-x-".to_string()));
}

#[test]
fn file_name_without_a_title() {
    assert_eq!(download_file_name(&titled(None)), Ok("Unknown".to_string()));
    assert_eq!(download_file_name(&titled(Some(vec![]))), Ok("Unknown".to_string()));
}

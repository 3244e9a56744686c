//! Plain text out of feed content: entities decoded, tags removed.

use vstd::prelude::*;
use vstd::string::*;
use crate::model::Item;

verus! {

/// What matches an HTML tag or an HTML comment.
pub const TAG_PATTERN: &'static str = "<\\/?[a-z][a-z0-9]*[^<>]*>|<!--.*?-->";

/// What matches a run of whitespace.
pub const WHITESPACE_PATTERN: &'static str = "\\s+";

/// What stands for a run of whitespace in a file name.
pub const FILE_NAME_SEPARATOR: &'static str = "-";

/// The file name of an item without a usable title.
pub const UNTITLED_FILE_NAME: &'static str = "Unknown";

/// Why text could not be turned into plain text.
#[derive(Debug, Clone, Copy, PartialEq, Eq)]
pub enum MarkupError {
    /// The regex engine refused a pattern.
    BadPattern,
}

#[verifier::external_type_specification]
#[verifier::external_body]
pub struct ExRegexError(regex::Error);

/// Whether `regex::Regex::new` accepts a pattern.
pub uninterp spec fn regex_accepts(pattern: Seq<char>) -> bool;

/// What `regex::Regex::replace_all` returns for the regex compiled from
/// `pattern`, on `text` and the replacement `rep`.
pub uninterp spec fn regex_replaced(pattern: Seq<char>, text: Seq<char>, rep: Seq<char>) -> Seq<char>;

/// What `html_escape::decode_html_entities` returns on `text`.
pub uninterp spec fn entities_decoded(text: Seq<char>) -> Seq<char>;

/// `regex::Regex::new` on `pattern`, then `Regex::replace_all` on `text` with
/// the replacement `rep`. The error is the one that `Regex::new` gave.
#[verifier::external_body]
pub(crate) fn replace_all(pattern: &str, text: &str, rep: &str) -> (r: Result<String, regex::Error>)
    ensures
        r.is_ok() == regex_accepts(pattern@),
        r matches Ok(s) ==> s@ == regex_replaced(pattern@, text@, rep@),
{
    let re = regex::Regex::new(pattern)?;
    Ok(re.replace_all(text, rep).into_owned())
}

/// `html_escape::decode_html_entities`.
#[verifier::external_body]
pub(crate) fn decode_entities(text: &str) -> (r: String)
    ensures
        r@ == entities_decoded(text@),
{
    html_escape::decode_html_entities(text).into_owned()
}

/// `text` with every match of `pattern` replaced by `rep`.
pub fn replace_matches(pattern: &str, text: &str, rep: &str) -> (r: Result<String, MarkupError>)
    ensures
        match r {
            Ok(s) => regex_accepts(pattern@) && s@ == regex_replaced(pattern@, text@, rep@),
            Err(e) => !regex_accepts(pattern@) && e == MarkupError::BadPattern,
        },
{
    match replace_all(pattern, text, rep) {
        Ok(s) => Ok(s),
        Err(_) => Err(MarkupError::BadPattern),
    }
}

/// `text` without its tags and comments.
pub fn strip_tags(text: &str) -> (r: Result<String, MarkupError>)
    ensures
        match r {
            Ok(s) => regex_accepts(TAG_PATTERN@) && s@ == regex_replaced(TAG_PATTERN@, text@, ""@),
            Err(e) => !regex_accepts(TAG_PATTERN@) && e == MarkupError::BadPattern,
        },
{
    replace_matches(TAG_PATTERN, text, "")
}

/// What the content pane shows of `html`: its entities decoded, then its
/// tags and comments removed.
pub fn plain_text(html: &str) -> (r: Result<String, MarkupError>)
    ensures
        match r {
            Ok(s) => regex_accepts(TAG_PATTERN@) && s@ == regex_replaced(
                TAG_PATTERN@,
                entities_decoded(html@),
                ""@,
            ),
            Err(e) => !regex_accepts(TAG_PATTERN@) && e == MarkupError::BadPattern,
        },
{
    let decoded = decode_entities(html);
    strip_tags(decoded.as_str())
}

/// The name of the file that an item is downloaded to: its first title with
/// each run of whitespace replaced by one separator, or `Unknown` where it
/// has no title.
pub fn download_file_name(item: &Item) -> (r: Result<String, MarkupError>)
    ensures
        match item@.first_title() {
            None => r matches Ok(s) && s@ == UNTITLED_FILE_NAME@,
            Some(title) => match r {
                Ok(s) => regex_accepts(WHITESPACE_PATTERN@) && s@ == regex_replaced(
                    WHITESPACE_PATTERN@,
                    title,
                    FILE_NAME_SEPARATOR@,
                ),
                Err(e) => !regex_accepts(WHITESPACE_PATTERN@) && e == MarkupError::BadPattern,
            },
        },
{
    if let Some(titles) = &item.title {
        if titles.len() > 0 {
            return replace_matches(WHITESPACE_PATTERN, titles[0].as_str(), FILE_NAME_SEPARATOR);
        }
    }
    Ok(UNTITLED_FILE_NAME.to_owned())
}

} // verus!

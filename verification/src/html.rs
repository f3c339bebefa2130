use crate::message::HTMLMessage;
use vstd::prelude::*;

verus! {

/// The pattern of a tag: from a `<` to the nearest `>` after it, with at
/// least one character and no further `<` between them.
pub const TAG_PATTERN: &'static str = "<[^<]+?>";

/// The format that marks a formatted body as HTML.
pub const HTML_FORMAT: &'static str = "org.matrix.custom.html";

/// Whether the `regex` crate accepts `pattern` as a regular expression.
pub uninterp spec fn pattern_is_valid(pattern: Seq<char>) -> bool;

/// `text` with every match of `pattern`, found from left to right without
/// overlap, replaced by `replacement`.
pub uninterp spec fn matches_replaced(
    pattern: Seq<char>,
    text: Seq<char>,
    replacement: Seq<char>,
) -> Seq<char>;

/// `text` with each HTML character reference replaced by what it stands for.
pub uninterp spec fn entities_decoded(text: Seq<char>) -> Seq<char>;

/// Compiles `pattern` with `regex::Regex::new` and, where that succeeds,
/// replaces every match in `text` with `Regex::replace_all`.
/// Trusted: that the pattern alone decides whether it compiles, and that
/// pattern, text and replacement alone decide what comes out.
#[verifier::external_body]
fn replace_matches(pattern: &str, text: &str, replacement: &str) -> (r: Option<String>)
    ensures
        r.is_some() == pattern_is_valid(pattern@),
        r matches Some(out) ==> out@ == matches_replaced(pattern@, text@, replacement@),
{
    match regex::Regex::new(pattern) {
        Ok(re) => Some(re.replace_all(text, replacement).into_owned()),
        Err(_) => None,
    }
}

/// Decodes character references with `html_escape::decode_html_entities`.
/// Trusted: that the text alone decides the result.
#[verifier::external_body]
fn decode_entities(text: &str) -> (r: String)
    ensures
        r@ == entities_decoded(text@),
{
    html_escape::decode_html_entities(text).into_owned()
}

/// The plain text of markup from which the tags were taken out, or the
/// empty text where they could not be.
pub open spec fn plain_of(stripped: Option<Seq<char>>) -> Seq<char> {
    match stripped {
        Some(rest) => entities_decoded(rest),
        None => Seq::empty(),
    }
}

/// What is left of markup without its tags, where the tag pattern is usable.
pub open spec fn tags_stripped(raw: Seq<char>) -> Option<Seq<char>> {
    if pattern_is_valid(TAG_PATTERN@) {
        Some(matches_replaced(TAG_PATTERN@, raw, Seq::empty()))
    } else {
        None
    }
}

/// The plain body of a message written as `raw` markup.
pub open spec fn plain_body_of(raw: Seq<char>) -> Seq<char> {
    plain_of(tags_stripped(raw))
}

/// Takes every tag out of `raw`.
pub fn strip_tags(raw: &str) -> (r: Option<String>)
    ensures
        match r {
            Some(rest) => tags_stripped(raw@) == Some(rest@),
            None => tags_stripped(raw@).is_none(),
        },
{
    let nothing = String::new();
    replace_matches(TAG_PATTERN, raw, nothing.as_str())
}

/// Turns markup without its tags into the plain body: the character
/// references are decoded. Where the tags could not be taken out the plain
/// body is empty.
pub fn plain_body(stripped: Option<String>) -> (r: String)
    ensures
        r@ == plain_of(
            match stripped {
                Some(rest) => Some(rest@),
                None => None,
            },
        ),
{
    match stripped {
        Some(rest) => decode_entities(rest.as_str()),
        None => String::new(),
    }
}

/// Renders markup for display: the plain body, which has the tags taken out
/// and the character references decoded, and the formatted body, which is
/// the markup as it came.
pub fn render_html(raw_html: String) -> (r: (String, String))
    ensures
        r.0@ == plain_body_of(raw_html@),
        r.1@ == raw_html@,
{
    let plain = plain_body(strip_tags(raw_html.as_str()));
    (plain, raw_html)
}

/// Puts a rendered message together.
pub fn html_message(message_type: String, plain_body: String, formatted_body: String) -> (m:
    HTMLMessage)
    ensures
        m.message_type@ == message_type@,
        m.body@ == plain_body@,
        m.formatted_body@ == formatted_body@,
        m.format@ == HTML_FORMAT@,
{
    HTMLMessage { message_type, body: plain_body, formatted_body, format: HTML_FORMAT.to_owned() }
}

/// The message of type `message_type` that `html_text` writes: its body is
/// the plain text of the markup, its formatted body the markup itself.
pub fn get_html_message(message_type: String, html_text: String) -> (m: HTMLMessage)
    ensures
        m.message_type@ == message_type@,
        m.body@ == plain_body_of(html_text@),
        m.formatted_body@ == html_text@,
        m.format@ == HTML_FORMAT@,
{
    let (plain, formatted) = render_html(html_text);
    html_message(message_type, plain, formatted)
}

} // verus!

//! Percent-encoding for URLs, escaping for HTML text and quoting for JSON.
//!
//! The encodings are stated here character by character; the work itself
//! is done by the `urlencoding`, `maud` and `serde_json` crates.

use vstd::prelude::*;
use vstd::utf8::*;

verus! {

/// The bytes that percent-encoding leaves as they are: ASCII letters and
/// digits, `-`, `.`, `_` and `~`.
pub open spec fn is_unreserved(b: u8) -> bool {
    ||| 0x30 <= b <= 0x39
    ||| 0x41 <= b <= 0x5a
    ||| 0x61 <= b <= 0x7a
    ||| b == 0x2d
    ||| b == 0x2e
    ||| b == 0x5f
    ||| b == 0x7e
}

/// The upper-case hexadecimal digit for a value below 16.
pub open spec fn hex_upper(d: u8) -> char
    recommends
        d < 16,
{
    if d < 10 {
        (0x30 + d) as u8 as char
    } else {
        (0x41 + d - 10) as u8 as char
    }
}

/// One byte, percent-encoded: itself where it is unreserved, else `%` and
/// its two upper-case hexadecimal digits.
pub open spec fn percent_encoded_byte(b: u8) -> Seq<char> {
    if is_unreserved(b) {
        seq![b as char]
    } else {
        seq!['%', hex_upper(b / 16), hex_upper(b % 16)]
    }
}

/// A byte string, percent-encoded byte by byte.
pub open spec fn percent_encoded_bytes(bytes: Seq<u8>) -> Seq<char>
    decreases bytes.len(),
{
    if bytes.len() == 0 {
        Seq::empty()
    } else {
        percent_encoded_byte(bytes[0]) + percent_encoded_bytes(bytes.skip(1))
    }
}

/// A text, percent-encoded: the encoding of its UTF-8 bytes.
pub open spec fn percent_encoded(text: Seq<char>) -> Seq<char> {
    percent_encoded_bytes(encode_utf8(text))
}

/// `urlencoding::encode`: every byte of the text's UTF-8 form but the
/// unreserved ones becomes `%` and two upper-case hexadecimal digits.
#[verifier::external_body]
pub(crate) fn percent_encode(text: &str) -> (encoded: String)
    ensures
        encoded@ == percent_encoded(text@),
{
    urlencoding::encode(text).into_owned()
}

/// One character as it stands in HTML text: `&`, `<`, `>` and `"` become
/// entities, every other character is itself.
pub open spec fn html_escaped_char(c: char) -> Seq<char> {
    if c == '&' {
        seq!['&', 'a', 'm', 'p', ';']
    } else if c == '<' {
        seq!['&', 'l', 't', ';']
    } else if c == '>' {
        seq!['&', 'g', 't', ';']
    } else if c == '"' {
        seq!['&', 'q', 'u', 'o', 't', ';']
    } else {
        seq![c]
    }
}

/// A text escaped for HTML, character by character.
pub open spec fn html_escaped(text: Seq<char>) -> Seq<char>
    decreases text.len(),
{
    if text.len() == 0 {
        Seq::empty()
    } else {
        html_escaped_char(text[0]) + html_escaped(text.skip(1))
    }
}

/// `maud::Render::render` on a `str`: the text with `&`, `<`, `>` and `"`
/// replaced by their entities and nothing else changed.
#[verifier::external_body]
pub(crate) fn html_escape(text: &str) -> (escaped: String)
    ensures
        escaped@ == html_escaped(text@),
{
    maud::Render::render(text).into_string()
}

/// Escaping never removes a character: what is not `&`, `<`, `>` or `"`
/// stands in the result as it stood in the text.
pub proof fn lemma_html_escaped_plain(text: Seq<char>)
    requires
        forall|i: int|
            0 <= i < text.len() ==> #[trigger] text[i] != '&' && text[i] != '<' && text[i] != '>'
                && text[i] != '"',
    ensures
        html_escaped(text) == text,
    decreases text.len(),
{
    if text.len() > 0 {
        lemma_html_escaped_plain(text.skip(1));
        assert(html_escaped_char(text[0]) == seq![text[0]]);
        assert(seq![text[0]] + text.skip(1) =~= text);
    }
}

/// The lower-case hexadecimal digit for a value below 16.
pub open spec fn hex_lower(d: u8) -> char
    recommends
        d < 16,
{
    if d < 10 {
        (0x30 + d) as u8 as char
    } else {
        (0x61 + d - 10) as u8 as char
    }
}

/// One character as it stands inside a JSON string: the quote and the
/// backslash behind a backslash, the control characters below U+0020 by
/// their short escapes or as `\u00` and two lower-case hexadecimal digits,
/// every other character as itself.
pub open spec fn json_escaped_char(c: char) -> Seq<char> {
    if c == '"' {
        seq!['\\', '"']
    } else if c == '\\' {
        seq!['\\', '\\']
    } else if c as u32 == 0x08 {
        seq!['\\', 'b']
    } else if c as u32 == 0x09 {
        seq!['\\', 't']
    } else if c as u32 == 0x0a {
        seq!['\\', 'n']
    } else if c as u32 == 0x0c {
        seq!['\\', 'f']
    } else if c as u32 == 0x0d {
        seq!['\\', 'r']
    } else if (c as u32) < 0x20 {
        seq!['\\', 'u', '0', '0', hex_lower((c as u8) / 16), hex_lower((c as u8) % 16)]
    } else {
        seq![c]
    }
}

/// The inside of a JSON string for a text, character by character.
pub open spec fn json_escaped(text: Seq<char>) -> Seq<char>
    decreases text.len(),
{
    if text.len() == 0 {
        Seq::empty()
    } else {
        json_escaped_char(text[0]) + json_escaped(text.skip(1))
    }
}

/// A text as a JSON string: escaped, between double quotes.
pub open spec fn json_quoted(text: Seq<char>) -> Seq<char> {
    seq!['"'] + json_escaped(text) + seq!['"']
}

/// `serde_json`'s rendering of a string value: the text between double
/// quotes, with quotes, backslashes and control characters escaped.
#[verifier::external_body]
pub(crate) fn json_quote(text: &str) -> (quoted: String)
    ensures
        quoted@ == json_quoted(text@),
{
    serde_json::Value::from(text).to_string()
}

} // verus!

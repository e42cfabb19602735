//! Percent-encoding of a URL component.

use vstd::prelude::*;
use vstd::utf8::{encode_utf8, is_ascii_chars, is_ascii_chars_encode_utf8};

verus! {

/// Bytes that stand for themselves in a URL component: ASCII letters and
/// digits, `-`, `.`, `_` and `~`.
pub open spec fn is_unreserved(b: u8) -> bool {
    ||| 0x30 <= b <= 0x39
    ||| 0x41 <= b <= 0x5a
    ||| 0x61 <= b <= 0x7a
    ||| b == 0x2d
    ||| b == 0x2e
    ||| b == 0x5f
    ||| b == 0x7e
}

/// The upper-case hexadecimal digit for a value below sixteen.
pub open spec fn hex_digit(d: int) -> char {
    if d < 10 {
        (0x30 + d) as char
    } else {
        (0x41 + d - 10) as char
    }
}

/// What one byte becomes: itself, or `%` and its two hexadecimal digits.
pub open spec fn encoded_byte(b: u8) -> Seq<char> {
    if is_unreserved(b) {
        seq![b as char]
    } else {
        seq!['%', hex_digit(b as int / 16), hex_digit(b as int % 16)]
    }
}

/// The percent-encoded form of a byte string.
pub open spec fn percent_encoded(bytes: Seq<u8>) -> Seq<char>
    decreases bytes.len(),
{
    if bytes.len() == 0 {
        Seq::empty()
    } else {
        encoded_byte(bytes[0]) + percent_encoded(bytes.drop_first())
    }
}

/// The percent-encoded form of a text, taken through its UTF-8 bytes.
pub open spec fn encoded_text(text: Seq<char>) -> Seq<char> {
    percent_encoded(encode_utf8(text))
}

/// Characters that may stand inside a query value without ending it or
/// starting another parameter.
pub open spec fn is_query_safe(c: char) -> bool {
    c != '&' && c != '=' && c != '?' && c != '#'
}

/// Every character of the text is safe inside a query value.
pub open spec fn is_query_safe_text(text: Seq<char>) -> bool {
    forall|i: int| 0 <= i < text.len() ==> is_query_safe(#[trigger] text[i])
}

/// An encoded byte never holds a character that delimits a query.
pub proof fn lemma_encoded_byte_is_query_safe(b: u8)
    ensures
        is_query_safe_text(encoded_byte(b)),
        1 <= encoded_byte(b).len() <= 3,
{
    if is_unreserved(b) {
        assert(encoded_byte(b)[0] == b as char);
    } else {
        let hi = b as int / 16;
        let lo = b as int % 16;
        assert(0 <= hi < 16 && 0 <= lo < 16);
        assert(is_query_safe(hex_digit(hi)));
        assert(is_query_safe(hex_digit(lo)));
    }
}

/// An encoded text never holds `&`, `=`, `?` or `#`: placed in a query it
/// stays one value.
pub proof fn lemma_percent_encoded_is_query_safe(bytes: Seq<u8>)
    ensures
        is_query_safe_text(percent_encoded(bytes)),
    decreases bytes.len(),
{
    if bytes.len() > 0 {
        lemma_encoded_byte_is_query_safe(bytes[0]);
        lemma_percent_encoded_is_query_safe(bytes.drop_first());
    }
}

/// A text of ASCII letters, digits, `-`, `.`, `_` and `~` alone.
pub open spec fn is_unreserved_text(text: Seq<char>) -> bool {
    forall|i: int|
        0 <= i < text.len() ==> '\0' <= #[trigger] text[i] <= '\u{7f}' && is_unreserved(
            text[i] as u8,
        )
}

proof fn lemma_ascii_char_is_its_byte(c: char)
    requires
        '\0' <= c <= '\u{7f}',
    ensures
        (c as u8) as char == c,
{
}

proof fn lemma_unreserved_bytes_are_kept(bytes: Seq<u8>, text: Seq<char>)
    requires
        bytes.len() == text.len(),
        is_unreserved_text(text),
        forall|i: int| 0 <= i < text.len() ==> #[trigger] bytes[i] == text[i] as u8,
    ensures
        percent_encoded(bytes) == text,
    decreases bytes.len(),
{
    if bytes.len() > 0 {
        let rest = text.drop_first();
        assert forall|i: int| 0 <= i < rest.len() implies '\0' <= #[trigger] rest[i] <= '\u{7f}'
            && is_unreserved(rest[i] as u8) && bytes.drop_first()[i] == rest[i] as u8 by {
            assert(rest[i] == text[i + 1]);
            assert(bytes.drop_first()[i] == bytes[i + 1]);
        }
        lemma_unreserved_bytes_are_kept(bytes.drop_first(), rest);
        lemma_ascii_char_is_its_byte(text[0]);
        assert(bytes[0] == text[0] as u8);
        assert(encoded_byte(bytes[0]) =~= seq![text[0]]);
        assert(seq![text[0]] + rest =~= text);
    } else {
        assert(text =~= Seq::empty());
    }
}

/// A text that holds nothing but unreserved characters is its own encoded
/// form.
pub proof fn lemma_unreserved_text_is_kept(text: Seq<char>)
    requires
        is_unreserved_text(text),
    ensures
        encoded_text(text) == text,
{
    assert(is_ascii_chars(text));
    is_ascii_chars_encode_utf8(text);
    lemma_unreserved_bytes_are_kept(encode_utf8(text), text);
}

/// Calls `urlencoding::encode` and takes the result as an owned string.
///
/// Trusted: the result is the text's UTF-8 bytes with every byte kept if it
/// is a letter, a digit, `-`, `.`, `_` or `~`, and otherwise replaced by `%`
/// and its two upper-case hexadecimal digits.
#[verifier::external_body]
fn encode_component(text: &str) -> (encoded: String)
    ensures
        encoded@ == encoded_text(text@),
{
    urlencoding::encode(text).into_owned()
}

/// Percent-encodes a text for use as one value of a query string.
pub fn percent_encode(text: &str) -> (encoded: String)
    ensures
        encoded@ == encoded_text(text@),
        is_query_safe_text(encoded@),
{
    proof {
        lemma_percent_encoded_is_query_safe(encode_utf8(text@));
    }
    encode_component(text)
}

} // verus!

//! The address at which the entries of a word are asked for.
//!
//! The language code and the word are each one segment of the path. A
//! segment is written as the bytes of its UTF-8 form: letters, digits and the
//! marks `-`, `.`, `_` and `~` as they are, every other byte as a percent
//! sign and two digits of base sixteen.

use vstd::prelude::*;
use vstd::string::StringExecFns;
use vstd::utf8::{encode_utf8, is_ascii_chars, is_ascii_chars_encode_utf8};
use crate::concat::{concat_map, lemma_concat_map_all, lemma_concat_map_next};

verus! {

/// `String::push` of std appends one character to the text.
pub assume_specification[ String::push ](text: &mut String, c: char)
    ensures
        final(text)@ == old(text)@.push(c),
;

/// The digits of base sixteen, in their order.
pub open spec fn hex_digits() -> Seq<char> {
    "0123456789ABCDEF"@
}

/// The characters that a path segment holds as they are.
pub open spec fn is_unreserved(c: char) -> bool {
    ||| 'A' <= c <= 'Z'
    ||| 'a' <= c <= 'z'
    ||| '0' <= c <= '9'
    ||| c == '-'
    ||| c == '.'
    ||| c == '_'
    ||| c == '~'
}

/// What one byte of a segment is written as.
pub open spec fn encoded_byte(byte: u8) -> Seq<char> {
    if is_unreserved(byte as char) {
        seq![byte as char]
    } else {
        seq!['%', hex_digits()[byte as int / 16], hex_digits()[byte as int % 16]]
    }
}

/// What a sequence of bytes is written as, byte by byte.
pub open spec fn percent_encoded(bytes: Seq<u8>) -> Seq<char> {
    concat_map(bytes, |byte: u8| encoded_byte(byte))
}

/// A text as one segment of a path.
pub open spec fn path_segment(text: Seq<char>) -> Seq<char> {
    percent_encoded(encode_utf8(text))
}

/// Where the entries of every language and word begin.
pub open spec fn entries_endpoint() -> Seq<char> {
    "https://api.dictionaryapi.dev/api/v2/entries/"@
}

/// The address of the entries of a word in a language.
pub open spec fn request_address(word: Seq<char>, language_code: Seq<char>) -> Seq<char> {
    entries_endpoint() + path_segment(language_code) + seq!['/'] + path_segment(word)
}

/// A segment holds nothing but the characters that a segment may hold as
/// they are, and percent signs: whatever the text, it stays one segment.
pub proof fn lemma_segment_is_safe(text: Seq<char>)
    ensures
        forall|i: int|
            0 <= i < path_segment(text).len() ==> is_unreserved(#[trigger] path_segment(text)[i])
                || path_segment(text)[i] == '%',
{
    reveal_strlit("0123456789ABCDEF");
    let bytes = encode_utf8(text);
    let piece = |byte: u8| encoded_byte(byte);
    let kind = |c: char| is_unreserved(c) || c == '%';
    assert forall|k: int, j: int| 0 <= k < bytes.len() && 0 <= j < piece(bytes[k]).len() implies kind(
        #[trigger] piece(bytes[k])[j],
    ) by {
        let byte = bytes[k];
        if !is_unreserved(byte as char) {
            assert(0 <= byte as int / 16 < 16 && 0 <= byte as int % 16 < 16);
        }
    }
    lemma_concat_map_all(bytes, piece, kind);
    assert forall|i: int| 0 <= i < path_segment(text).len() implies is_unreserved(
        #[trigger] path_segment(text)[i],
    ) || path_segment(text)[i] == '%' by {
        assert(kind(concat_map(bytes, piece)[i]));
    }
}

/// A text of letters, digits and the marks `-`, `.`, `_` and `~` alone is its
/// own segment.
pub proof fn lemma_unreserved_text_is_its_segment(text: Seq<char>)
    requires
        forall|i: int| 0 <= i < text.len() ==> is_unreserved(#[trigger] text[i]),
    ensures
        path_segment(text) == text,
    decreases text.len(),
{
    assert(is_ascii_chars(text));
    is_ascii_chars_encode_utf8(text);
    let bytes = encode_utf8(text);
    let piece = |byte: u8| encoded_byte(byte);
    if text.len() > 0 {
        let n = text.len() - 1;
        let shorter = text.take(n);
        lemma_unreserved_text_is_its_segment(shorter);
        assert(is_ascii_chars(shorter));
        is_ascii_chars_encode_utf8(shorter);
        assert(encode_utf8(shorter) =~= bytes.take(n));
        lemma_concat_map_next(bytes, piece, n);
        assert(bytes.take(n + 1) =~= bytes);
        assert(bytes[n] == text[n] as u8);
        assert(bytes[n] as char == text[n]);
        assert(path_segment(text) =~= shorter + seq![text[n]]);
        assert(shorter + seq![text[n]] =~= text);
    } else {
        assert(path_segment(text) =~= text);
    }
}

/// The digit of base sixteen for a number below sixteen.
fn hex_digit(nibble: u8) -> (digit: char)
    requires
        nibble < 16,
    ensures
        digit == hex_digits()[nibble as int],
{
    proof {
        reveal_strlit("0123456789ABCDEF");
    }
    if nibble < 10 {
        (0x30 + nibble) as char
    } else {
        (0x41 + (nibble - 10)) as char
    }
}

/// Whether a path segment holds the character as it is.
fn unreserved(c: char) -> (kept: bool)
    ensures
        kept == is_unreserved(c),
{
    ('A' <= c && c <= 'Z') || ('a' <= c && c <= 'z') || ('0' <= c && c <= '9') || c == '-' || c
        == '.' || c == '_' || c == '~'
}

/// Writes a text as one segment of a path.
pub fn encode_segment(text: &str) -> (segment: String)
    ensures
        segment@ == path_segment(text@),
{
    let bytes = text.as_bytes();
    let mut segment = String::new();
    let mut i: usize = 0;
    assert(bytes@.take(0) =~= Seq::empty());
    while i < bytes.len()
        invariant
            i <= bytes.len(),
            segment@ == percent_encoded(bytes@.take(i as int)),
        decreases bytes.len() - i,
    {
        let byte = bytes[i];
        proof {
            lemma_concat_map_next(bytes@, |byte: u8| encoded_byte(byte), i as int);
        }
        let ghost before = segment@;
        if unreserved(byte as char) {
            segment.push(byte as char);
            assert(segment@ =~= before + encoded_byte(byte));
        } else {
            segment.push('%');
            segment.push(hex_digit(byte / 16));
            segment.push(hex_digit(byte % 16));
            assert(segment@ =~= before + encoded_byte(byte));
        }
        i += 1;
    }
    assert(bytes@.take(i as int) =~= bytes@);
    segment
}

/// The address at which the entries of `word` in the language
/// `language_code` are asked for.
pub fn request_url(word: &str, language_code: &str) -> (url: String)
    ensures
        url@ == request_address(word@, language_code@),
{
    let mut url = String::from_str("https://api.dictionaryapi.dev/api/v2/entries/");
    url.append(encode_segment(language_code).as_str());
    url.push('/');
    url.append(encode_segment(word).as_str());
    assert(url@ =~= request_address(word@, language_code@));
    url
}

} // verus!

//! Text helpers: lenient UTF-8 decoding and ASCII case folding.

use vstd::prelude::*;
use vstd::utf8::*;

verus! {

/// What `String::from_utf8_lossy` makes of a byte string that is not
/// well-formed UTF-8: the text with every ill-formed part replaced by U+FFFD.
pub uninterp spec fn utf8_lossy(bytes: Seq<u8>) -> Seq<char>;

/// Lenient reading of bytes as text: well-formed UTF-8 decodes to the
/// characters it encodes; anything else is repaired rather than rejected.
pub open spec fn decode_text(bytes: Seq<u8>) -> Seq<char> {
    if valid_utf8(bytes) {
        decode_utf8(bytes)
    } else {
        utf8_lossy(bytes)
    }
}

/// Trusted: calls `String::from_utf8_lossy`. Well-formed input comes back as
/// the text it encodes; for any other input the contract only names the
/// repaired text.
#[verifier::external_body]
pub(crate) fn string_from_utf8_lossy(bytes: &[u8]) -> (text: String)
    ensures
        valid_utf8(bytes@) ==> text@ == decode_utf8(bytes@),
        !valid_utf8(bytes@) ==> text@ == utf8_lossy(bytes@),
{
    String::from_utf8_lossy(bytes).into_owned()
}

/// Trusted: calls `String::push`, which appends one character.
#[verifier::external_body]
pub(crate) fn push_char(s: &mut String, c: char)
    ensures
        final(s)@ == old(s)@.push(c),
{
    s.push(c)
}

/// Encoding text as UTF-8 and reading it back leniently changes nothing.
pub proof fn lemma_decode_text_of_encoded(text: Seq<char>)
    ensures
        decode_text(encode_utf8(text)) == text,
{
    encode_utf8_valid_utf8(text);
    encode_utf8_decode_utf8(text);
}

/// `c` with an ASCII capital replaced by its small letter.
pub open spec fn ascii_lowercase(c: char) -> char {
    if 'A' <= c && c <= 'Z' {
        ((c as u8) + 32) as u8 as char
    } else {
        c
    }
}

/// ASCII small letters and digits.
pub open spec fn is_lower_alphanumeric(c: char) -> bool {
    ('0' <= c && c <= '9') || ('a' <= c && c <= 'z')
}

/// Folds an ASCII capital to its small letter and leaves every other
/// character alone.
pub fn to_ascii_lowercase(c: char) -> (r: char)
    ensures
        r == ascii_lowercase(c),
{
    if 'A' <= c && c <= 'Z' {
        let code: u8 = c as u8;
        (code + 32) as char
    } else {
        c
    }
}

/// Tells whether `c` is an ASCII small letter or digit.
pub fn is_lower_alphanumeric_char(c: char) -> (b: bool)
    ensures
        b == is_lower_alphanumeric(c),
{
    ('0' <= c && c <= '9') || ('a' <= c && c <= 'z')
}

} // verus!

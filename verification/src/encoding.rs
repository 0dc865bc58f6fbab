//! Digests and their printable encodings.
//!
//! The hashing and the encodings themselves are done by the `sha2`, `base64`
//! and `hex` crates. Each call sits in a small function of this module whose
//! contract is taken on trust; everything built on top of them is proved.

use sha2::Digest;
use vstd::prelude::*;

verus! {

/// Number of bytes in a SHA-256 digest.
pub const SHA256_LEN: usize = 32;

/// The SHA-256 digest of `data`, as `sha2::Sha256::digest` computes it.
pub uninterp spec fn sha256(data: Seq<u8>) -> Seq<u8>;

/// The base64 text of `data` in the standard alphabet with `=` padding, as
/// `base64::encode` produces it.
pub uninterp spec fn base64_standard(data: Seq<u8>) -> Seq<char>;

/// The base64 text of `data` in the URL-safe alphabet without padding, as
/// `base64::encode_config` produces it under `base64::URL_SAFE_NO_PAD`.
pub uninterp spec fn base64_url_safe_no_pad(data: Seq<u8>) -> Seq<char>;

/// The lowercase hexadecimal digit for a value below sixteen.
pub open spec fn hex_digit(nibble: int) -> char {
    seq!['0', '1', '2', '3', '4', '5', '6', '7', '8', '9', 'a', 'b', 'c', 'd', 'e', 'f'][nibble]
}

/// Lowercase hexadecimal text of `data`: two digits per byte, high nibble
/// first.
pub open spec fn hex_lower(data: Seq<u8>) -> Seq<char> {
    Seq::new(
        2 * data.len(),
        |i: int|
            if i % 2 == 0 {
                hex_digit(data[i / 2] as int / 16)
            } else {
                hex_digit(data[i / 2] as int % 16)
            },
    )
}

/// Whether the base64 text of `len` bytes can be allocated: the encoders
/// stop with a panic once the text length leaves the range of `isize`.
pub open spec fn base64_fits(len: nat) -> bool {
    len / 3 * 4 + 4 <= isize::MAX
}

/// Trusted: calls `sha2::Sha256::digest`. The contract names the digest of the
/// input and records its fixed length of 32 bytes; nothing else is claimed.
#[verifier::external_body]
pub(crate) fn sha256_digest(data: &[u8]) -> (digest: Vec<u8>)
    ensures
        digest@ == sha256(data@),
        digest@.len() == SHA256_LEN,
{
    sha2::Sha256::digest(data).to_vec()
}

/// Trusted: calls `base64::encode`. The contract names the text it returns.
/// Inputs whose text could not be allocated are excluded, since the encoder
/// panics on them.
#[verifier::external_body]
pub(crate) fn encode_base64_standard(data: &[u8]) -> (text: String)
    requires
        base64_fits(data@.len()),
    ensures
        text@ == base64_standard(data@),
{
    base64::encode(data)
}

/// Trusted: calls `base64::encode_config` with `base64::URL_SAFE_NO_PAD`. The
/// contract names the text it returns. Inputs whose text could not be
/// allocated are excluded, since the encoder panics on them.
#[verifier::external_body]
pub(crate) fn encode_base64_url_safe_no_pad(data: &[u8]) -> (text: String)
    requires
        base64_fits(data@.len()),
    ensures
        text@ == base64_url_safe_no_pad(data@),
{
    base64::encode_config(data, base64::URL_SAFE_NO_PAD)
}

/// Trusted: calls `hex::encode`. The contract states its documented result:
/// every byte becomes two lowercase hexadecimal digits, in order. Inputs whose
/// text could not be allocated are excluded.
#[verifier::external_body]
pub(crate) fn encode_hex(data: &[u8]) -> (text: String)
    requires
        2 * data@.len() <= isize::MAX,
    ensures
        text@ == hex_lower(data@),
{
    hex::encode(data)
}

} // verus!

//! Identifiers carried by the protocol: client identities, credentials,
//! reconnect tokens and stream ids.

use crate::encoding::{
    base64_standard, base64_url_safe_no_pad, encode_base64_standard,
    encode_base64_url_safe_no_pad, encode_hex, hex_lower, sha256, sha256_digest, SHA256_LEN,
};
use crate::random::random_bytes;
use vstd::prelude::*;
use vstd::std_specs::cmp::PartialEqSpecImpl;
use vstd::string::*;
use vstd::utf8::*;

verus! {

/// Stream-id field of a packet that belongs to no stream.
pub const EMPTY_STREAM: [u8; 8] = [0x0F, 0x00, 0x00, 0x00, 0x00, 0x00, 0x00, 0x00];

/// Stream-id field of a ping that carries a reconnect token.
pub const TOKEN_STREAM: [u8; 8] = [0x0F, 0x00, 0x00, 0x00, 0x00, 0x00, 0x00, 0x01];

/// Number of random bytes behind a freshly generated client id.
pub const CLIENT_SEED_LEN: usize = 32;

/// The text that is hashed to derive an identity from a credential or from
/// another identity: standard base64 of the SHA-256 digest of its UTF-8 bytes.
pub open spec fn hashed_identity(text: Seq<char>) -> Seq<char> {
    base64_standard(sha256(encode_utf8(text)))
}

/// Equal texts hash to equal identities: a credential always maps to the same
/// identity.
pub proof fn lemma_hashed_identity_deterministic(a: Seq<char>, b: Seq<char>)
    requires
        a == b,
    ensures
        hashed_identity(a) == hashed_identity(b),
{
}

/// Hashes `text` and prints the digest in standard base64.
fn hash_to_base64(text: &str) -> (out: String)
    ensures
        out@ == hashed_identity(text@),
{
    let digest = sha256_digest(text.as_bytes());
    encode_base64_standard(digest.as_slice())
}

/// An opaque credential.
#[derive(Clone, Debug)]
pub struct SecretKey(pub String);

impl View for SecretKey {
    type V = Seq<char>;

    open spec fn view(&self) -> Seq<char> {
        self.0@
    }
}

impl SecretKey {
    /// The identity that belongs to this credential. The same credential
    /// always yields the same identity.
    pub fn client_id(&self) -> (id: ClientId)
        ensures
            id@ == hashed_identity(self@),
    {
        ClientId(hash_to_base64(self.0.as_str()))
    }

    /// Lowercase hexadecimal SHA-256 digest of the credential, for logs.
    pub fn sha256_hex(&self) -> (text: String)
        ensures
            text@ == hex_lower(sha256(encode_utf8(self@))),
            text@.len() == 2 * SHA256_LEN,
    {
        let digest = sha256_digest(self.0.as_str().as_bytes());
        encode_hex(digest.as_slice())
    }
}

/// A server-issued token that lets a client resume a session.
#[derive(Clone, Debug)]
pub struct ReconnectToken(pub String);

impl View for ReconnectToken {
    type V = Seq<char>;

    open spec fn view(&self) -> Seq<char> {
        self.0@
    }
}

/// Identity of a client.
#[derive(Clone, Debug, Eq, Hash)]
pub struct ClientId(String);

impl View for ClientId {
    type V = Seq<char>;

    closed spec fn view(&self) -> Seq<char> {
        self.0@
    }
}

impl PartialEq for ClientId {
    fn eq(&self, other: &Self) -> (r: bool) {
        self.0 == other.0
    }
}

impl PartialEqSpecImpl for ClientId {
    open spec fn obeys_eq_spec() -> bool {
        true
    }

    open spec fn eq_spec(&self, other: &Self) -> bool {
        self@ == other@
    }
}

impl ClientId {
    /// Whether `id` is what `generate` may return: the URL-safe unpadded
    /// base64 text of some 32-byte seed.
    pub open spec fn is_generated(id: Seq<char>) -> bool {
        exists|seed: Seq<u8>|
            seed.len() == CLIENT_SEED_LEN && id == #[trigger] base64_url_safe_no_pad(seed)
    }

    /// Wraps an identity received from a peer.
    pub fn new(id: String) -> (r: ClientId)
        ensures
            r@ == id@,
    {
        ClientId(id)
    }

    /// The identity as text.
    pub fn as_str(&self) -> (s: &str)
        ensures
            s@ == self@,
    {
        self.0.as_str()
    }

    /// The identity as owned text.
    pub fn to_string(&self) -> (s: String)
        ensures
            s@ == self@,
    {
        self.0.clone()
    }

    /// The identity that stands for a 32-byte seed.
    pub fn from_seed(seed: &[u8; 32]) -> (id: ClientId)
        ensures
            id@ == base64_url_safe_no_pad(seed@),
    {
        ClientId(encode_base64_url_safe_no_pad(seed.as_slice()))
    }

    /// A fresh anonymous identity from 32 random bytes.
    pub fn generate() -> (id: ClientId)
        ensures
            Self::is_generated(id@),
    {
        let seed: [u8; 32] = random_bytes::<32>();
        Self::from_seed(&seed)
    }

    /// An identity derived from this one that can be shown to third parties.
    pub fn safe_id(self) -> (id: ClientId)
        ensures
            id@ == hashed_identity(self@),
    {
        ClientId(hash_to_base64(self.0.as_str()))
    }
}

/// Identifier of one logical stream: eight raw bytes.
#[derive(Clone, Debug, Eq, Hash)]
pub struct StreamId([u8; 8]);

impl View for StreamId {
    type V = Seq<u8>;

    closed spec fn view(&self) -> Seq<u8> {
        self.0@
    }
}

impl PartialEq for StreamId {
    fn eq(&self, other: &Self) -> (r: bool) {
        let mut i: usize = 0;
        while i < 8
            invariant
                i <= 8,
                forall|j: int| 0 <= j < i ==> self.0@[j] == other.0@[j],
            decreases 8 - i,
        {
            if self.0[i] != other.0[i] {
                return false;
            }
            i += 1;
        }
        assert(self.0@ =~= other.0@);
        true
    }
}

impl PartialEqSpecImpl for StreamId {
    open spec fn obeys_eq_spec() -> bool {
        true
    }

    open spec fn eq_spec(&self, other: &Self) -> bool {
        self@ == other@
    }
}

impl StreamId {
    /// Every stream id is eight bytes long.
    pub proof fn lemma_len(self)
        ensures
            self@.len() == 8,
    {
    }

    /// The stream id with the given bytes.
    pub fn new(bytes: [u8; 8]) -> (id: StreamId)
        ensures
            id@ == bytes@,
    {
        StreamId(bytes)
    }

    /// The eight bytes of the id.
    pub fn bytes(&self) -> (bytes: [u8; 8])
        ensures
            bytes@ == self@,
    {
        self.0
    }

    /// The eight bytes of the id, borrowed.
    pub fn as_slice(&self) -> (bytes: &[u8])
        ensures
            bytes@ == self@,
    {
        self.0.as_slice()
    }

    /// A stream id of eight random bytes. The reserved patterns are not
    /// excluded.
    pub fn generate() -> (id: StreamId)
        ensures
            id@.len() == 8,
    {
        StreamId(random_bytes::<8>())
    }

    /// Printable form: `stream_` followed by the URL-safe unpadded base64 text
    /// of the eight bytes.
    pub fn to_string(&self) -> (text: String)
        ensures
            text@ == "stream_"@ + base64_url_safe_no_pad(self@),
    {
        let encoded = encode_base64_url_safe_no_pad(self.0.as_slice());
        String::from_str("stream_").concat(encoded.as_str())
    }
}

} // verus!

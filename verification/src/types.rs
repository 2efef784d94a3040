//! Data model of the relay server: the signed retrieval request, the cached
//! block bid, the set of authorized relay keys, the two wire encodings, and
//! the outcome of a request.

use vstd::prelude::*;
use crate::bytes::{bytes_eq, clone_bytes};

verus! {

/// Length in bytes of a BLS public key.
pub const PUBKEY_LEN: usize = 48;

/// Length in bytes of a block hash.
pub const BLOCK_HASH_LEN: usize = 32;

/// Length in bytes of a BLS signature.
pub const SIGNATURE_LEN: usize = 96;

/// Length in bytes of a signature domain value.
pub const DOMAIN_LEN: usize = 32;

/// ASCII bytes of `application/json`.
pub open spec fn content_type_text() -> Seq<u8> {
    seq![97u8, 112, 112, 108, 105, 99, 97, 116, 105, 111, 110, 47, 106, 115, 111, 110]
}

/// The bytes of `application/json`, built at run time.
pub fn content_type_text_vec() -> (r: Vec<u8>)
    ensures
        r@ == content_type_text(),
{
    let mut v: Vec<u8> = Vec::new();
    v.push(97); // 'a'
    v.push(112); // 'p'
    v.push(112); // 'p'
    v.push(108); // 'l'
    v.push(105); // 'i'
    v.push(99); // 'c'
    v.push(97); // 'a'
    v.push(116); // 't'
    v.push(105); // 'i'
    v.push(111); // 'o'
    v.push(110); // 'n'
    v.push(47); // '/'
    v.push(106); // 'j'
    v.push(115); // 's'
    v.push(111); // 'o'
    v.push(110); // 'n'
    proof {
        assert(v@ =~= content_type_text());
    }
    v
}

/// ASCII bytes of `application/octet-stream`.
pub open spec fn content_type_binary() -> Seq<u8> {
    seq![97u8, 112, 112, 108, 105, 99, 97, 116, 105, 111, 110, 47, 111, 99, 116, 101, 116, 45, 115, 116, 114, 101, 97, 109]
}

/// The bytes of `application/octet-stream`, built at run time.
pub fn content_type_binary_vec() -> (r: Vec<u8>)
    ensures
        r@ == content_type_binary(),
{
    let mut v: Vec<u8> = Vec::new();
    v.push(97); // 'a'
    v.push(112); // 'p'
    v.push(112); // 'p'
    v.push(108); // 'l'
    v.push(105); // 'i'
    v.push(99); // 'c'
    v.push(97); // 'a'
    v.push(116); // 't'
    v.push(105); // 'i'
    v.push(111); // 'o'
    v.push(110); // 'n'
    v.push(47); // '/'
    v.push(111); // 'o'
    v.push(99); // 'c'
    v.push(116); // 't'
    v.push(101); // 'e'
    v.push(116); // 't'
    v.push(45); // '-'
    v.push(115); // 's'
    v.push(116); // 't'
    v.push(114); // 'r'
    v.push(101); // 'e'
    v.push(97); // 'a'
    v.push(109); // 'm'
    proof {
        assert(v@ =~= content_type_binary());
    }
    v
}

/// The two wire encodings a request may use and a response is served in.
#[derive(Clone, Copy, PartialEq, Eq, Structural, Debug)]
pub enum Encoding {
    /// The structured text encoding, declared as `application/json`.
    Text,
    /// The compact binary encoding, declared as `application/octet-stream`.
    Binary,
}

/// The content-type value that declares `enc`.
pub open spec fn content_type_of(enc: Encoding) -> Seq<u8> {
    match enc {
        Encoding::Text => content_type_text(),
        Encoding::Binary => content_type_binary(),
    }
}

/// The encoding declared by a content-type value, if it is a supported one.
pub open spec fn encoding_of_content_type(ct: Seq<u8>) -> Option<Encoding> {
    if ct == content_type_text() {
        Some(Encoding::Text)
    } else if ct == content_type_binary() {
        Some(Encoding::Binary)
    } else {
        None
    }
}

/// The content-type bytes that declare `enc`.
pub fn content_type_bytes(enc: Encoding) -> (r: Vec<u8>)
    ensures
        r@ == content_type_of(enc),
{
    match enc {
        Encoding::Text => content_type_text_vec(),
        Encoding::Binary => content_type_binary_vec(),
    }
}

/// Reads a content-type value; returns the encoding it declares, or nothing
/// for any unsupported value.
pub fn parse_content_type(ct: &Vec<u8>) -> (r: Option<Encoding>)
    ensures
        r == encoding_of_content_type(ct@),
{
    let text = content_type_text_vec();
    if bytes_eq(ct, &text) {
        return Some(Encoding::Text);
    }
    let binary = content_type_binary_vec();
    if bytes_eq(ct, &binary) {
        return Some(Encoding::Binary);
    }
    None
}

/// Mathematical model of a signed retrieval request.
#[verifier::ext_equal]
pub ghost struct RequestView {
    /// Milliseconds since the epoch at which the relay issued the request.
    pub request_ts: u64,
    /// The requesting relay's public key.
    pub relay_public_key: Seq<u8>,
    /// The block hash whose payload is requested.
    pub block_hash: Seq<u8>,
    /// Signature over the three fields above under the server's domain.
    pub signature: Seq<u8>,
}

impl RequestView {
    /// The fields have the fixed sizes the wire formats give them.
    pub open spec fn wf(self) -> bool {
        &&& self.relay_public_key.len() == PUBKEY_LEN
        &&& self.block_hash.len() == BLOCK_HASH_LEN
        &&& self.signature.len() == SIGNATURE_LEN
    }
}

/// A signed retrieval request: a relay asks for the payload of one block
/// hash, authenticating with its public key and a signature over the
/// timestamp, key and hash.
pub struct SignedPayloadRequest {
    /// Milliseconds since the epoch at which the relay issued the request.
    pub request_ts: u64,
    /// The requesting relay's public key.
    pub relay_public_key: Vec<u8>,
    /// The block hash whose payload is requested.
    pub block_hash: Vec<u8>,
    /// Signature over the three fields above under the server's domain.
    pub signature: Vec<u8>,
}

impl View for SignedPayloadRequest {
    type V = RequestView;

    open spec fn view(&self) -> RequestView {
        RequestView {
            request_ts: self.request_ts,
            relay_public_key: self.relay_public_key@,
            block_hash: self.block_hash@,
            signature: self.signature@,
        }
    }
}

impl Clone for SignedPayloadRequest {
    fn clone(&self) -> (r: Self)
        ensures
            r@ == self@,
    {
        SignedPayloadRequest {
            request_ts: self.request_ts,
            relay_public_key: clone_bytes(&self.relay_public_key),
            block_hash: clone_bytes(&self.block_hash),
            signature: clone_bytes(&self.signature),
        }
    }
}

/// Mathematical model of a cached block bid.
#[verifier::ext_equal]
pub ghost struct BidView {
    /// The block hash, the cache key.
    pub block_hash: Seq<u8>,
    /// Declared value of the bid in wei, kept as trace metadata.
    pub value_wei: u128,
    /// The payload pre-encoded in the structured text encoding, or nothing
    /// if the producer could not represent it there.
    pub payload_text: Option<Seq<u8>>,
    /// The payload pre-encoded in the compact binary encoding.
    pub payload_binary: Seq<u8>,
}

impl BidView {
    /// The block hash has its fixed size.
    pub open spec fn wf(self) -> bool {
        self.block_hash.len() == BLOCK_HASH_LEN
    }
}

/// An immutable, already-signed block submission: the cache key (its block
/// hash), its bid-trace value, and the payload bytes needed to answer a
/// retrieval in either wire encoding. Once inserted it is never mutated.
pub struct BlockBid {
    /// The block hash, the cache key.
    pub block_hash: Vec<u8>,
    /// Declared value of the bid in wei, kept as trace metadata.
    pub value_wei: u128,
    /// The payload pre-encoded in the structured text encoding, or nothing
    /// if the producer could not represent it there.
    pub payload_text: Option<Vec<u8>>,
    /// The payload pre-encoded in the compact binary encoding.
    pub payload_binary: Vec<u8>,
}

impl View for BlockBid {
    type V = BidView;

    open spec fn view(&self) -> BidView {
        BidView {
            block_hash: self.block_hash@,
            value_wei: self.value_wei,
            payload_text: match self.payload_text {
                Some(ref t) => Some(t@),
                None => None,
            },
            payload_binary: self.payload_binary@,
        }
    }
}

impl Clone for BlockBid {
    fn clone(&self) -> (r: Self)
        ensures
            r@ == self@,
    {
        let r = BlockBid {
            block_hash: clone_bytes(&self.block_hash),
            value_wei: self.value_wei,
            payload_text: match &self.payload_text {
                Some(t) => Some(clone_bytes(t)),
                None => None,
            },
            payload_binary: clone_bytes(&self.payload_binary),
        };
        proof {
            assert(r@ =~= self@);
        }
        r
    }
}

/// The set of relay public keys permitted to retrieve payloads, fixed at
/// server start.
pub struct AuthorizedPubkeySet {
    keys: Vec<Vec<u8>>,
}

impl View for AuthorizedPubkeySet {
    type V = Seq<Seq<u8>>;

    closed spec fn view(&self) -> Seq<Seq<u8>> {
        self.keys@.map_values(|k: Vec<u8>| k@)
    }
}

impl AuthorizedPubkeySet {
    /// A set holding exactly the given keys.
    pub fn new(keys: Vec<Vec<u8>>) -> (r: Self)
        ensures
            r@ == keys@.map_values(|k: Vec<u8>| k@),
    {
        AuthorizedPubkeySet { keys }
    }

    /// Whether `pk` is one of the authorized keys.
    pub fn contains(&self, pk: &Vec<u8>) -> (r: bool)
        ensures
            r == self@.contains(pk@),
    {
        let mut i: usize = 0;
        while i < self.keys.len()
            invariant
                i <= self.keys@.len(),
                self@ == self.keys@.map_values(|k: Vec<u8>| k@),
                forall|j: int| 0 <= j < i ==> self@[j] != pk@,
            decreases self.keys@.len() - i,
        {
            if bytes_eq(&self.keys[i], pk) {
                proof {
                    assert(self@[i as int] == pk@);
                }
                return true;
            }
            i = i + 1;
        }
        proof {
            assert(forall|j: int| 0 <= j < self@.len() ==> self@[j] != pk@);
        }
        false
    }
}

/// Mathematical model of the outcome of one retrieval request.
#[verifier::ext_equal]
pub ghost enum OutcomeView {
    /// The payload was found and encoded in the requested encoding.
    Success {
        /// The encoding the request used and the response is served in.
        encoding: Encoding,
        /// The response body: the stored payload in that encoding.
        body: Seq<u8>,
    },
    /// Unsupported content type or malformed body.
    BadRequest,
    /// The requesting public key is not authorized.
    UnknownPubkey,
    /// The signature does not verify for the signed message.
    InvalidSignature,
    /// No bid for the requested block hash is in the cache.
    NotFound,
    /// The stored bid has no representation in the requested encoding.
    EncodeFailure,
}

impl OutcomeView {
    /// The HTTP status code this outcome is reported with.
    pub open spec fn status_code(self) -> u16 {
        match self {
            OutcomeView::Success { .. } => 200,
            OutcomeView::BadRequest => 400,
            OutcomeView::UnknownPubkey => 401,
            OutcomeView::InvalidSignature => 401,
            OutcomeView::NotFound => 404,
            OutcomeView::EncodeFailure => 500,
        }
    }
}

/// The outcome of one retrieval request, as handed back to the transport
/// layer.
pub enum RequestOutcome {
    /// The payload was found and encoded in the requested encoding.
    Success {
        /// The encoding the request used and the response is served in.
        encoding: Encoding,
        /// The response body: the stored payload in that encoding.
        body: Vec<u8>,
    },
    /// Unsupported content type or malformed body.
    BadRequest,
    /// The requesting public key is not authorized.
    UnknownPubkey,
    /// The signature does not verify for the signed message.
    InvalidSignature,
    /// No bid for the requested block hash is in the cache.
    NotFound,
    /// The stored bid has no representation in the requested encoding.
    EncodeFailure,
}

impl View for RequestOutcome {
    type V = OutcomeView;

    open spec fn view(&self) -> OutcomeView {
        match self {
            RequestOutcome::Success { encoding, body } => OutcomeView::Success {
                encoding: *encoding,
                body: body@,
            },
            RequestOutcome::BadRequest => OutcomeView::BadRequest,
            RequestOutcome::UnknownPubkey => OutcomeView::UnknownPubkey,
            RequestOutcome::InvalidSignature => OutcomeView::InvalidSignature,
            RequestOutcome::NotFound => OutcomeView::NotFound,
            RequestOutcome::EncodeFailure => OutcomeView::EncodeFailure,
        }
    }
}

impl RequestOutcome {
    /// The HTTP status code this outcome is reported with.
    pub fn status_code(&self) -> (r: u16)
        ensures
            r == self@.status_code(),
    {
        match self {
            RequestOutcome::Success { .. } => 200,
            RequestOutcome::BadRequest => 400,
            RequestOutcome::UnknownPubkey => 401,
            RequestOutcome::InvalidSignature => 401,
            RequestOutcome::NotFound => 404,
            RequestOutcome::EncodeFailure => 500,
        }
    }
}

} // verus!

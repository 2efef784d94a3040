//! The compact binary wire encoding of a signed retrieval request: the four
//! fixed-size fields concatenated in order — timestamp as eight
//! little-endian bytes, then public key, block hash and signature — with no
//! framing, 184 bytes in all. Every 184-byte body decodes; any other length
//! is rejected.

use vstd::prelude::*;
use crate::bytes::clone_bytes;
use crate::bytes::lemma_u64_le_roundtrip;
use crate::bytes::sub_vec;
use crate::bytes::u64_from_le_vec;
use crate::bytes::u64_le_bytes;
use crate::bytes::u64_of_le_bytes;
use crate::bytes::u64_to_le_vec;
use crate::types::RequestView;
use crate::types::SignedPayloadRequest;

verus! {

/// Total length of a binary-encoded request.
pub const BINARY_REQUEST_LEN: usize = 184;

/// The binary encoding of a request: timestamp bytes, public key, block
/// hash, signature, concatenated.
pub open spec fn binary_encoding(v: RequestView) -> Seq<u8> {
    u64_le_bytes(v.request_ts) + v.relay_public_key + v.block_hash + v.signature
}

/// The request a binary body spells, or nothing if the length is wrong.
pub open spec fn binary_decoding(s: Seq<u8>) -> Option<RequestView> {
    if s.len() == BINARY_REQUEST_LEN {
        Some(
            RequestView {
                request_ts: u64_of_le_bytes(s.subrange(0, 8)),
                relay_public_key: s.subrange(8, 56),
                block_hash: s.subrange(56, 88),
                signature: s.subrange(88, 184),
            },
        )
    } else {
        None
    }
}

/// Decoding a binary-encoded well-formed request recovers it, field for
/// field.
pub proof fn lemma_binary_roundtrip(v: RequestView)
    requires
        v.wf(),
    ensures
        binary_decoding(binary_encoding(v)) == Some(v),
{
    let s = binary_encoding(v);
    assert(s.len() == BINARY_REQUEST_LEN);
    assert(s.subrange(0, 8) =~= u64_le_bytes(v.request_ts));
    assert(s.subrange(8, 56) =~= v.relay_public_key);
    assert(s.subrange(56, 88) =~= v.block_hash);
    assert(s.subrange(88, 184) =~= v.signature);
    lemma_u64_le_roundtrip(v.request_ts);
    assert(binary_decoding(s).unwrap() =~= v);
}

/// The binary format is strict: a body that decodes re-encodes to itself,
/// so each request has exactly one binary spelling.
pub proof fn lemma_binary_canonical(s: Seq<u8>)
    requires
        binary_decoding(s) is Some,
    ensures
        binary_encoding(binary_decoding(s).unwrap()) == s,
{
    let v = binary_decoding(s).unwrap();
    crate::bytes::lemma_u64_of_le_inverse(s.subrange(0, 8));
    assert(binary_encoding(v) =~= s);
}

/// Writes a request in the binary encoding.
pub fn encode_binary(req: &SignedPayloadRequest) -> (r: Vec<u8>)
    requires
        req@.wf(),
    ensures
        r@ == binary_encoding(req@),
{
    let mut out = u64_to_le_vec(req.request_ts);
    let mut pk = clone_bytes(&req.relay_public_key);
    out.append(&mut pk);
    let mut bh = clone_bytes(&req.block_hash);
    out.append(&mut bh);
    let mut sig = clone_bytes(&req.signature);
    out.append(&mut sig);
    proof {
        assert(out@ =~= binary_encoding(req@));
    }
    out
}

/// Reads a body in the binary encoding; rejects exactly the bodies that
/// spell no request.
pub fn decode_binary(body: &Vec<u8>) -> (r: Option<SignedPayloadRequest>)
    ensures
        match r {
            Some(req) => binary_decoding(body@) == Some(req@) && req@.wf(),
            None => binary_decoding(body@) is None,
        },
{
    if body.len() != BINARY_REQUEST_LEN {
        return None;
    }
    let ts_bytes = sub_vec(body, 0, 8);
    let req = SignedPayloadRequest {
        request_ts: u64_from_le_vec(&ts_bytes),
        relay_public_key: sub_vec(body, 8, 56),
        block_hash: sub_vec(body, 56, 88),
        signature: sub_vec(body, 88, 184),
    };
    proof {
        assert(req@ =~= binary_decoding(body@).unwrap());
    }
    Some(req)
}

} // verus!

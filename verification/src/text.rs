//! The structured text wire encoding of a signed retrieval request: one
//! canonical JSON document with the four fields in fixed order and fixed
//! width, every byte string spelled as `0x`-prefixed lowercase hexadecimal
//! and the timestamp as the hexadecimal of its eight little-endian bytes:
//!
//! `{"request_ts":"0x<16 hex>","relay_public_key":"0x<96 hex>",`
//! `"block_hash":"0x<64 hex>","signature":"0x<192 hex>"}`
//!
//! Decoding is strict: only the canonical document is accepted, so the
//! format has one spelling per request and decoding inverts encoding.

use vstd::prelude::*;
use crate::bytes::bytes_eq;
use crate::bytes::bytes_of_hex;
use crate::bytes::hex_decode;
use crate::bytes::hex_encode;
use crate::bytes::hex_of;
use crate::bytes::hex_seq_valid;
use crate::bytes::lemma_bytes_of_hex_of;
use crate::bytes::lemma_hex_of_valid;
use crate::bytes::lemma_u64_le_roundtrip;
use crate::bytes::sub_vec;
use crate::bytes::u64_from_le_vec;
use crate::bytes::u64_le_bytes;
use crate::bytes::u64_of_le_bytes;
use crate::bytes::u64_to_le_vec;
use crate::types::RequestView;
use crate::types::SignedPayloadRequest;

verus! {

/// Total length of a text-encoded request.
pub const TEXT_REQUEST_LEN: usize = 446;

/// ASCII bytes of `{"request_ts":"0x`.
pub open spec fn label_request_ts() -> Seq<u8> {
    seq![123u8, 34, 114, 101, 113, 117, 101, 115, 116, 95, 116, 115, 34, 58, 34, 48, 120]
}

/// The bytes of `{"request_ts":"0x`, built at run time.
fn label_request_ts_vec() -> (r: Vec<u8>)
    ensures
        r@ == label_request_ts(),
{
    let mut v: Vec<u8> = Vec::new();
    v.push(123);
    v.push(34);
    v.push(114);
    v.push(101);
    v.push(113);
    v.push(117);
    v.push(101);
    v.push(115);
    v.push(116);
    v.push(95);
    v.push(116);
    v.push(115);
    v.push(34);
    v.push(58);
    v.push(34);
    v.push(48);
    v.push(120);
    proof {
        assert(v@ =~= label_request_ts());
    }
    v
}

/// ASCII bytes of `","relay_public_key":"0x`.
pub open spec fn label_public_key() -> Seq<u8> {
    seq![34u8, 44, 34, 114, 101, 108, 97, 121, 95, 112, 117, 98, 108, 105, 99, 95, 107, 101, 121, 34, 58, 34, 48, 120]
}

/// The bytes of `","relay_public_key":"0x`, built at run time.
fn label_public_key_vec() -> (r: Vec<u8>)
    ensures
        r@ == label_public_key(),
{
    let mut v: Vec<u8> = Vec::new();
    v.push(34);
    v.push(44);
    v.push(34);
    v.push(114);
    v.push(101);
    v.push(108);
    v.push(97);
    v.push(121);
    v.push(95);
    v.push(112);
    v.push(117);
    v.push(98);
    v.push(108);
    v.push(105);
    v.push(99);
    v.push(95);
    v.push(107);
    v.push(101);
    v.push(121);
    v.push(34);
    v.push(58);
    v.push(34);
    v.push(48);
    v.push(120);
    proof {
        assert(v@ =~= label_public_key());
    }
    v
}

/// ASCII bytes of `","block_hash":"0x`.
pub open spec fn label_block_hash() -> Seq<u8> {
    seq![34u8, 44, 34, 98, 108, 111, 99, 107, 95, 104, 97, 115, 104, 34, 58, 34, 48, 120]
}

/// The bytes of `","block_hash":"0x`, built at run time.
fn label_block_hash_vec() -> (r: Vec<u8>)
    ensures
        r@ == label_block_hash(),
{
    let mut v: Vec<u8> = Vec::new();
    v.push(34);
    v.push(44);
    v.push(34);
    v.push(98);
    v.push(108);
    v.push(111);
    v.push(99);
    v.push(107);
    v.push(95);
    v.push(104);
    v.push(97);
    v.push(115);
    v.push(104);
    v.push(34);
    v.push(58);
    v.push(34);
    v.push(48);
    v.push(120);
    proof {
        assert(v@ =~= label_block_hash());
    }
    v
}

/// ASCII bytes of `","signature":"0x`.
pub open spec fn label_signature() -> Seq<u8> {
    seq![34u8, 44, 34, 115, 105, 103, 110, 97, 116, 117, 114, 101, 34, 58, 34, 48, 120]
}

/// The bytes of `","signature":"0x`, built at run time.
fn label_signature_vec() -> (r: Vec<u8>)
    ensures
        r@ == label_signature(),
{
    let mut v: Vec<u8> = Vec::new();
    v.push(34);
    v.push(44);
    v.push(34);
    v.push(115);
    v.push(105);
    v.push(103);
    v.push(110);
    v.push(97);
    v.push(116);
    v.push(117);
    v.push(114);
    v.push(101);
    v.push(34);
    v.push(58);
    v.push(34);
    v.push(48);
    v.push(120);
    proof {
        assert(v@ =~= label_signature());
    }
    v
}

/// ASCII bytes of `"}`.
pub open spec fn label_closing() -> Seq<u8> {
    seq![34u8, 125]
}

/// The bytes of `"}`, built at run time.
fn label_closing_vec() -> (r: Vec<u8>)
    ensures
        r@ == label_closing(),
{
    let mut v: Vec<u8> = Vec::new();
    v.push(34);
    v.push(125);
    proof {
        assert(v@ =~= label_closing());
    }
    v
}

/// The text encoding of a request: the labels and the hexadecimal spellings
/// of the four fields, concatenated.
pub open spec fn text_encoding(v: RequestView) -> Seq<u8> {
    label_request_ts() + hex_of(u64_le_bytes(v.request_ts)) + label_public_key() + hex_of(
        v.relay_public_key,
    ) + label_block_hash() + hex_of(v.block_hash) + label_signature() + hex_of(v.signature)
        + label_closing()
}

/// The request a text body spells, or nothing if any byte departs from the
/// canonical document.
pub open spec fn text_decoding(s: Seq<u8>) -> Option<RequestView> {
    if s.len() == TEXT_REQUEST_LEN && s.subrange(0, 17) == label_request_ts() && s.subrange(
        33,
        57,
    ) == label_public_key() && s.subrange(153, 171) == label_block_hash() && s.subrange(235, 252)
        == label_signature() && s.subrange(444, 446) == label_closing() && hex_seq_valid(
        s.subrange(17, 33),
    ) && hex_seq_valid(s.subrange(57, 153)) && hex_seq_valid(s.subrange(171, 235)) && hex_seq_valid(
        s.subrange(252, 444),
    ) {
        Some(
            RequestView {
                request_ts: u64_of_le_bytes(bytes_of_hex(s.subrange(17, 33))),
                relay_public_key: bytes_of_hex(s.subrange(57, 153)),
                block_hash: bytes_of_hex(s.subrange(171, 235)),
                signature: bytes_of_hex(s.subrange(252, 444)),
            },
        )
    } else {
        None
    }
}

/// Decoding a text-encoded well-formed request recovers it, field for
/// field.
pub proof fn lemma_text_roundtrip(v: RequestView)
    requires
        v.wf(),
    ensures
        text_decoding(text_encoding(v)) == Some(v),
{
    let s = text_encoding(v);
    let h_ts = hex_of(u64_le_bytes(v.request_ts));
    let h_pk = hex_of(v.relay_public_key);
    let h_bh = hex_of(v.block_hash);
    let h_sig = hex_of(v.signature);
    assert(h_ts.len() == 16);
    assert(h_pk.len() == 96);
    assert(h_bh.len() == 64);
    assert(h_sig.len() == 192);
    assert(s.len() == TEXT_REQUEST_LEN);
    assert(s.subrange(0, 17) =~= label_request_ts());
    assert(s.subrange(17, 33) =~= h_ts);
    assert(s.subrange(33, 57) =~= label_public_key());
    assert(s.subrange(57, 153) =~= h_pk);
    assert(s.subrange(153, 171) =~= label_block_hash());
    assert(s.subrange(171, 235) =~= h_bh);
    assert(s.subrange(235, 252) =~= label_signature());
    assert(s.subrange(252, 444) =~= h_sig);
    assert(s.subrange(444, 446) =~= label_closing());
    lemma_hex_of_valid(u64_le_bytes(v.request_ts));
    lemma_hex_of_valid(v.relay_public_key);
    lemma_hex_of_valid(v.block_hash);
    lemma_hex_of_valid(v.signature);
    lemma_bytes_of_hex_of(u64_le_bytes(v.request_ts));
    lemma_bytes_of_hex_of(v.relay_public_key);
    lemma_bytes_of_hex_of(v.block_hash);
    lemma_bytes_of_hex_of(v.signature);
    lemma_u64_le_roundtrip(v.request_ts);
    assert(text_decoding(s).unwrap() =~= v);
}

/// The text format is strict: a body that decodes re-encodes to itself, so
/// each request has exactly one text spelling.
pub proof fn lemma_text_canonical(s: Seq<u8>)
    requires
        text_decoding(s) is Some,
    ensures
        text_encoding(text_decoding(s).unwrap()) == s,
{
    let v = text_decoding(s).unwrap();
    let h_ts = s.subrange(17, 33);
    let h_pk = s.subrange(57, 153);
    let h_bh = s.subrange(171, 235);
    let h_sig = s.subrange(252, 444);
    crate::bytes::lemma_hex_of_bytes_of(h_ts);
    crate::bytes::lemma_hex_of_bytes_of(h_pk);
    crate::bytes::lemma_hex_of_bytes_of(h_bh);
    crate::bytes::lemma_hex_of_bytes_of(h_sig);
    crate::bytes::lemma_u64_of_le_inverse(bytes_of_hex(h_ts));
    assert(hex_of(u64_le_bytes(v.request_ts)) == h_ts);
    assert(hex_of(v.relay_public_key) == h_pk);
    assert(hex_of(v.block_hash) == h_bh);
    assert(hex_of(v.signature) == h_sig);
    assert(text_encoding(v) =~= s);
}

/// Writes a request in the text encoding.
pub fn encode_text(req: &SignedPayloadRequest) -> (r: Vec<u8>)
    requires
        req@.wf(),
    ensures
        r@ == text_encoding(req@),
{
    let mut out = label_request_ts_vec();
    let ts_bytes = u64_to_le_vec(req.request_ts);
    let mut piece = hex_encode(&ts_bytes);
    out.append(&mut piece);
    let mut piece = label_public_key_vec();
    out.append(&mut piece);
    let mut piece = hex_encode(&req.relay_public_key);
    out.append(&mut piece);
    let mut piece = label_block_hash_vec();
    out.append(&mut piece);
    let mut piece = hex_encode(&req.block_hash);
    out.append(&mut piece);
    let mut piece = label_signature_vec();
    out.append(&mut piece);
    let mut piece = hex_encode(&req.signature);
    out.append(&mut piece);
    let mut piece = label_closing_vec();
    out.append(&mut piece);
    proof {
        assert(out@ =~= text_encoding(req@));
    }
    out
}

/// Reads a body in the text encoding; rejects exactly the bodies that spell
/// no request.
pub fn decode_text(body: &Vec<u8>) -> (r: Option<SignedPayloadRequest>)
    ensures
        match r {
            Some(req) => text_decoding(body@) == Some(req@) && req@.wf(),
            None => text_decoding(body@) is None,
        },
{
    if body.len() != TEXT_REQUEST_LEN {
        return None;
    }
    let label = label_request_ts_vec();
    let piece = sub_vec(body, 0, 17);
    if !bytes_eq(&piece, &label) {
        return None;
    }
    let label = label_public_key_vec();
    let piece = sub_vec(body, 33, 57);
    if !bytes_eq(&piece, &label) {
        return None;
    }
    let label = label_block_hash_vec();
    let piece = sub_vec(body, 153, 171);
    if !bytes_eq(&piece, &label) {
        return None;
    }
    let label = label_signature_vec();
    let piece = sub_vec(body, 235, 252);
    if !bytes_eq(&piece, &label) {
        return None;
    }
    let label = label_closing_vec();
    let piece = sub_vec(body, 444, 446);
    if !bytes_eq(&piece, &label) {
        return None;
    }
    let ts_hex = sub_vec(body, 17, 33);
    let ts_bytes = match hex_decode(&ts_hex) {
        Some(v) => v,
        None => {
            return None;
        },
    };
    let pk_hex = sub_vec(body, 57, 153);
    let relay_public_key = match hex_decode(&pk_hex) {
        Some(v) => v,
        None => {
            return None;
        },
    };
    let bh_hex = sub_vec(body, 171, 235);
    let block_hash = match hex_decode(&bh_hex) {
        Some(v) => v,
        None => {
            return None;
        },
    };
    let sig_hex = sub_vec(body, 252, 444);
    let signature = match hex_decode(&sig_hex) {
        Some(v) => v,
        None => {
            return None;
        },
    };
    let req = SignedPayloadRequest {
        request_ts: u64_from_le_vec(&ts_bytes),
        relay_public_key,
        block_hash,
        signature,
    };
    proof {
        assert(req@ =~= text_decoding(body@).unwrap());
    }
    Some(req)
}

} // verus!

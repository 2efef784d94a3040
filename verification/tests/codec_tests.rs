//! Round trips and exact wire layouts of the two request encodings.

use optimistic_relay::binary::decode_binary;
use optimistic_relay::binary::encode_binary;
use optimistic_relay::text::decode_text;
use optimistic_relay::text::encode_text;
use optimistic_relay::types::SignedPayloadRequest;

fn sample_request() -> SignedPayloadRequest {
    SignedPayloadRequest {
        request_ts: 0x0102030405060708,
        relay_public_key: vec![0xab; 48],
        block_hash: vec![0xcd; 32],
        signature: vec![0xef; 96],
    }
}

#[test]
fn text_round_trip_recovers_fields() {
    let req = sample_request();
    let body = encode_text(&req);
    let back = decode_text(&body).expect("canonical text body must decode");
    assert_eq!(back.request_ts, req.request_ts);
    assert_eq!(back.relay_public_key, req.relay_public_key);
    assert_eq!(back.block_hash, req.block_hash);
    assert_eq!(back.signature, req.signature);
}

#[test]
fn binary_round_trip_recovers_fields() {
    let req = sample_request();
    let body = encode_binary(&req);
    let back = decode_binary(&body).expect("a 184-byte binary body must decode");
    assert_eq!(back.request_ts, req.request_ts);
    assert_eq!(back.relay_public_key, req.relay_public_key);
    assert_eq!(back.block_hash, req.block_hash);
    assert_eq!(back.signature, req.signature);
}

#[test]
fn text_encoding_exact_bytes() {
    let req = sample_request();
    let body = encode_text(&req);
    // The timestamp is spelled as the hexadecimal of its little-endian
    // bytes; every field is fixed-width lowercase hexadecimal.
    let expected = format!(
        "{{\"request_ts\":\"0x0807060504030201\",\"relay_public_key\":\"0x{}\",\"block_hash\":\"0x{}\",\"signature\":\"0x{}\"}}",
        "ab".repeat(48),
        "cd".repeat(32),
        "ef".repeat(96),
    );
    assert_eq!(body, expected.into_bytes());
    assert_eq!(body.len(), 446);
}

#[test]
fn binary_encoding_exact_bytes() {
    let req = sample_request();
    let body = encode_binary(&req);
    let mut expected: Vec<u8> = vec![8, 7, 6, 5, 4, 3, 2, 1];
    expected.extend(vec![0xab; 48]);
    expected.extend(vec![0xcd; 32]);
    expected.extend(vec![0xef; 96]);
    assert_eq!(body, expected);
    assert_eq!(body.len(), 184);
}

#[test]
fn text_decode_rejects_wrong_length() {
    assert!(decode_text(&Vec::new()).is_none());
    let req = sample_request();
    let mut body = encode_text(&req);
    body.pop();
    assert!(decode_text(&body).is_none());
}

#[test]
fn text_decode_rejects_uppercase_hex() {
    let req = sample_request();
    let mut body = encode_text(&req);
    // 'a' (0x61) of the public key replaced by 'A' (0x41): not canonical.
    assert_eq!(body[57], b'a');
    body[57] = b'A';
    assert!(decode_text(&body).is_none());
}

#[test]
fn text_decode_rejects_wrong_label() {
    let req = sample_request();
    let mut body = encode_text(&req);
    assert_eq!(body[2], b'r');
    body[2] = b's';
    assert!(decode_text(&body).is_none());
}

#[test]
fn binary_decode_rejects_wrong_length() {
    assert!(decode_binary(&Vec::new()).is_none());
    assert!(decode_binary(&vec![0u8; 183]).is_none());
    assert!(decode_binary(&vec![0u8; 185]).is_none());
    assert!(decode_binary(&vec![0u8; 1024]).is_none());
}

#[test]
fn binary_decode_reads_timestamp_little_endian() {
    let mut body = vec![0u8; 184];
    body[0] = 1;
    body[1] = 2;
    let back = decode_binary(&body).expect("a 184-byte binary body must decode");
    assert_eq!(back.request_ts, 0x0201);
}

use rijq::token::{
    bytes_to_token, encode_token, token_is_wf, token_to_bytes, CodecError, Token, MIN_TOKEN_LEN,
};

fn sample_token() -> Token {
    Token {
        uin: 123456789012345,
        d2: vec![1, 2, 3],
        d2key: vec![],
        tgt: vec![4, 5, 6, 7, 8],
        srm_token: vec![9],
        t133: vec![10, 11],
        encrypted_a1: vec![12, 13, 14, 15],
        wt_session_ticket_key: vec![16],
        out_packet_session_id: vec![17, 18],
        tgtgt_key: vec![19, 20, 21],
    }
}

#[test]
fn round_trip_returns_equal_token() {
    let t = sample_token();
    let b = token_to_bytes(&t);
    let d = bytes_to_token(&b).unwrap();
    assert_eq!(d, t);
}

#[test]
fn round_trip_negative_uin() {
    let mut t = sample_token();
    t.uin = -42;
    let b = token_to_bytes(&t);
    let d = bytes_to_token(&b).unwrap();
    assert_eq!(d.uin, -42);
    assert_eq!(d, t);
}

#[test]
fn empty_fields_token_encodes_to_minimum_length() {
    let t = Token {
        uin: 7,
        d2: vec![],
        d2key: vec![],
        tgt: vec![],
        srm_token: vec![],
        t133: vec![],
        encrypted_a1: vec![],
        wt_session_ticket_key: vec![],
        out_packet_session_id: vec![],
        tgtgt_key: vec![],
    };
    let b = token_to_bytes(&t);
    assert_eq!(b.len(), MIN_TOKEN_LEN);
    assert_eq!(bytes_to_token(&b).unwrap(), t);
}

#[test]
fn every_short_buffer_fails_with_corrupt_token() {
    for len in 0..MIN_TOKEN_LEN {
        let b = vec![0u8; len];
        assert_eq!(bytes_to_token(&b).unwrap_err(), CodecError::CorruptToken);
    }
}

#[test]
fn truncated_buffer_fails() {
    let t = sample_token();
    let mut b = token_to_bytes(&t);
    b.pop();
    assert_eq!(bytes_to_token(&b).unwrap_err(), CodecError::CorruptToken);
}

#[test]
fn overlong_field_length_prefix_fails() {
    let t = sample_token();
    let mut b = token_to_bytes(&t);
    // claim the first field is far longer than the buffer
    b[8] = 0xFF;
    b[9] = 0xFF;
    assert_eq!(bytes_to_token(&b).unwrap_err(), CodecError::CorruptToken);
}

#[test]
fn trailing_bytes_are_ignored() {
    let t = sample_token();
    let mut b = token_to_bytes(&t);
    b.push(0xAA);
    b.push(0xBB);
    assert_eq!(bytes_to_token(&b).unwrap(), t);
}

#[test]
fn layout_is_big_endian_and_length_prefixed() {
    let t = Token {
        uin: 1,
        d2: vec![0xAB],
        d2key: vec![],
        tgt: vec![],
        srm_token: vec![],
        t133: vec![],
        encrypted_a1: vec![],
        wt_session_ticket_key: vec![],
        out_packet_session_id: vec![],
        tgtgt_key: vec![],
    };
    let b = token_to_bytes(&t);
    let expected: Vec<u8> = vec![
        0, 0, 0, 0, 0, 0, 0, 1, // uin, 8 bytes big-endian
        0, 1, 0xAB, // d2: length 1, then its byte
        0, 0, 0, 0, 0, 0, 0, 0, 0, 0, 0, 0, 0, 0, 0, 0, // eight empty fields
    ];
    assert_eq!(b, expected);
}

#[test]
fn oversized_field_cannot_encode() {
    let mut t = sample_token();
    t.tgt = vec![0; 0x10000];
    assert!(!token_is_wf(&t));
    assert!(encode_token(&t).is_none());
}

#[test]
fn largest_field_still_round_trips() {
    let mut t = sample_token();
    t.tgt = vec![7; 0xFFFF];
    assert!(token_is_wf(&t));
    let b = encode_token(&t).unwrap();
    assert_eq!(bytes_to_token(&b).unwrap(), t);
}

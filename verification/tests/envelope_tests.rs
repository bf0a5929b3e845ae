use dcc_decode::cwt::{cbor_byte, parse_sign1, sig_structure, CwtError};

fn head(major: u8, val: u64) -> Vec<u8> {
    let mut out = Vec::new();
    if val < 24 {
        out.push(major * 32 + val as u8);
    } else if val < 256 {
        out.push(major * 32 + 24);
        out.push(val as u8);
    } else if val < 65536 {
        out.push(major * 32 + 25);
        out.push((val / 256) as u8);
        out.push((val % 256) as u8);
    } else {
        panic!("larger heads not needed here");
    }
    out
}

fn bstr(b: &[u8]) -> Vec<u8> {
    let mut out = head(2, b.len() as u64);
    out.extend_from_slice(b);
    out
}

/// A four-element envelope with the given pieces, optionally tagged.
fn envelope(tagged: bool, protected: &[u8], unprotected: &[u8], payload: &[u8], sig: &[u8]) -> Vec<u8> {
    let mut out = Vec::new();
    if tagged {
        out.extend_from_slice(&head(6, 18));
    }
    out.push(0x84);
    out.extend_from_slice(&bstr(protected));
    out.extend_from_slice(unprotected);
    out.extend_from_slice(&bstr(payload));
    out.extend_from_slice(&bstr(sig));
    out
}

/// An unprotected header map carrying the key identifier under label 4.
fn unprotected_with_kid(kid: &[u8]) -> Vec<u8> {
    let mut out = vec![0xa1, 0x04];
    out.extend_from_slice(&bstr(kid));
    out
}

#[test]
fn cbor_byte_splits_major_and_info() {
    assert_eq!(cbor_byte(0x84), Ok((4, 4)));
    assert_eq!(cbor_byte(0xa1), Ok((5, 1)));
    assert_eq!(cbor_byte(0x00), Ok((0, 0)));
    assert_eq!(cbor_byte(0xff), Ok((7, 31)));
}

#[test]
fn minimal_envelope_fields_extracted_exactly() {
    // Protected header {1: -7}, kid in the unprotected header.
    let protected = [0xa1, 0x01, 0x26];
    let payload = [0xde, 0xad, 0xbe, 0xef];
    let sig = [7u8; 8];
    let bytes = envelope(true, &protected, &unprotected_with_kid(&[0xab, 0xcd]), &payload, &sig);
    let s1 = parse_sign1(&bytes).unwrap();
    assert_eq!(s1.protected, protected.to_vec());
    assert_eq!(s1.kid, vec![0xab, 0xcd]);
    assert_eq!(s1.payload, payload.to_vec());
    assert_eq!(s1.signature, sig.to_vec());
}

#[test]
fn untagged_envelope_also_parses() {
    let bytes = envelope(false, &[0xa1, 0x01, 0x26], &unprotected_with_kid(b"k"), b"p", b"s");
    let s1 = parse_sign1(&bytes).unwrap();
    assert_eq!(s1.kid, b"k".to_vec());
}

#[test]
fn protected_kid_takes_precedence() {
    // Protected header {4: h'0102'}, unprotected {4: h'AABB'}.
    let mut protected = vec![0xa1, 0x04];
    protected.extend_from_slice(&bstr(&[0x01, 0x02]));
    let bytes = envelope(true, &protected, &unprotected_with_kid(&[0xaa, 0xbb]), b"p", b"s");
    let s1 = parse_sign1(&bytes).unwrap();
    assert_eq!(s1.kid, vec![0x01, 0x02]);
}

#[test]
fn missing_kid_is_malformed() {
    // Empty protected header, empty unprotected map: no key identifier anywhere.
    let bytes = envelope(true, &[], &[0xa0], b"p", b"s");
    assert_eq!(parse_sign1(&bytes), Err(CwtError::MalformedEnvelope));
}

#[test]
fn unknown_header_labels_are_skipped() {
    // Unprotected {1: 38, 4: h'77', "x": [1, 2]}.
    let mut unprot = vec![0xa3, 0x01, 0x18, 0x26, 0x04];
    unprot.extend_from_slice(&bstr(&[0x77]));
    unprot.extend_from_slice(&[0x61, 0x78, 0x82, 0x01, 0x02]);
    let bytes = envelope(true, &[], &unprot, b"p", b"s");
    let s1 = parse_sign1(&bytes).unwrap();
    assert_eq!(s1.kid, vec![0x77]);
}

#[test]
fn wrong_shapes_are_malformed() {
    // Not an array.
    assert_eq!(parse_sign1(&[0xa0]), Err(CwtError::MalformedEnvelope));
    // Array of 3.
    let mut three = vec![0x83];
    three.extend_from_slice(&bstr(&[]));
    three.extend_from_slice(&[0xa0]);
    three.extend_from_slice(&bstr(b"p"));
    assert_eq!(parse_sign1(&three), Err(CwtError::MalformedEnvelope));
    // Wrong tag value.
    let mut tagged = head(6, 17);
    tagged.extend_from_slice(&envelope(false, &[], &unprotected_with_kid(b"k"), b"p", b"s"));
    assert_eq!(parse_sign1(&tagged), Err(CwtError::MalformedEnvelope));
    // Trailing bytes after the envelope.
    let mut trailing = envelope(true, &[], &unprotected_with_kid(b"k"), b"p", b"s");
    trailing.push(0x00);
    assert_eq!(parse_sign1(&trailing), Err(CwtError::MalformedEnvelope));
    // Empty input.
    assert_eq!(parse_sign1(&[]), Err(CwtError::MalformedEnvelope));
}

#[test]
fn sig_structure_exact_bytes() {
    let protected = [0xa1, 0x01, 0x26];
    let payload = [0x01, 0x02, 0x03];
    let got = sig_structure(&protected, &payload);
    let mut want = vec![0x84];
    want.extend_from_slice(&[0x6a]);
    want.extend_from_slice(b"Signature1");
    want.extend_from_slice(&bstr(&protected));
    want.push(0x40);
    want.extend_from_slice(&bstr(&payload));
    assert_eq!(got, want);
}

#[test]
fn sig_structure_long_pieces_use_wider_heads() {
    let protected = [0x55u8; 300];
    let payload = [0x66u8; 40];
    let got = sig_structure(&protected, &payload);
    let mut want = vec![0x84, 0x6a];
    want.extend_from_slice(b"Signature1");
    want.extend_from_slice(&[0x59, 0x01, 0x2c]);
    want.extend_from_slice(&protected);
    want.push(0x40);
    want.extend_from_slice(&[0x58, 40]);
    want.extend_from_slice(&payload);
    assert_eq!(got, want);
}

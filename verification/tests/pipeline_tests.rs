use dcc_decode::b45::{base45_encode, Base45Error};
use dcc_decode::cwt::CwtError;
use dcc_decode::dcc::{load_sign1, LoadError};
use std::io::Write;

fn head(major: u8, val: u64) -> Vec<u8> {
    let mut out = Vec::new();
    if val < 24 {
        out.push(major * 32 + val as u8);
    } else if val < 256 {
        out.push(major * 32 + 24);
        out.push(val as u8);
    } else {
        out.push(major * 32 + 25);
        out.push((val / 256) as u8);
        out.push((val % 256) as u8);
    }
    out
}

fn bstr(b: &[u8]) -> Vec<u8> {
    let mut out = head(2, b.len() as u64);
    out.extend_from_slice(b);
    out
}

/// The test envelope: fixed protected header, key identifier, payload
/// and signature, plus one unknown header entry of adjustable size that
/// the parser skips.
fn envelope_bytes(fill: usize) -> Vec<u8> {
    let mut out = head(6, 18);
    out.push(0x84);
    out.extend_from_slice(&bstr(&[0xa1, 0x01, 0x26]));
    out.push(0xa2);
    out.push(0x04);
    out.extend_from_slice(&bstr(&[0x9a, 0xbc]));
    out.push(0x05);
    out.extend_from_slice(&bstr(&vec![0u8; fill]));
    out.extend_from_slice(&bstr(&[0x41, 0x42, 0x43]));
    out.extend_from_slice(&bstr(&[0x55; 6]));
    out
}

fn deflate(data: &[u8]) -> Vec<u8> {
    let mut enc = flate2::write::ZlibEncoder::new(Vec::new(), flate2::Compression::default());
    enc.write_all(data).unwrap();
    enc.finish().unwrap()
}

/// A compressed envelope of even length: the pair-based alphabet
/// encoder used for test construction carries even byte counts, so the
/// unknown filler entry is grown until the stream length is even.
fn even_compressed_envelope() -> Vec<u8> {
    for fill in 0..64 {
        let compressed = deflate(&envelope_bytes(fill));
        if compressed.len() % 2 == 0 {
            return compressed;
        }
    }
    panic!("no filler size gave an even compressed length");
}

fn token() -> Vec<u8> {
    let mut token = b"HC1:".to_vec();
    token.extend_from_slice(&base45_encode(&even_compressed_envelope()));
    token.push(b'\n');
    token
}

#[test]
fn whole_token_loads() {
    let s1 = load_sign1(&token()).unwrap();
    assert_eq!(s1.protected, vec![0xa1, 0x01, 0x26]);
    assert_eq!(s1.kid, vec![0x9a, 0xbc]);
    assert_eq!(s1.payload, vec![0x41, 0x42, 0x43]);
    assert_eq!(s1.signature, vec![0x55; 6]);
}

#[test]
fn trailing_newlines_are_trimmed() {
    let mut t = token();
    t.push(b'\n');
    t.push(b'\n');
    assert!(load_sign1(&t).is_ok());
}

#[test]
fn bad_prefix_is_rejected() {
    assert_eq!(load_sign1(b"HC2:ABC"), Err(LoadError::BadPrefix));
    assert_eq!(load_sign1(b""), Err(LoadError::BadPrefix));
    assert_eq!(load_sign1(b"HC1"), Err(LoadError::BadPrefix));
    assert_eq!(load_sign1(b"hc1:ABC"), Err(LoadError::BadPrefix));
}

#[test]
fn bad_symbol_is_rejected() {
    assert_eq!(load_sign1(b"HC1:ab!"), Err(LoadError::Base45(Base45Error::InvalidChar(b'a'))));
    assert_eq!(load_sign1(b"HC1:BB8Q"), Err(LoadError::Base45(Base45Error::TruncatedInput)));
}

#[test]
fn bad_compressed_stream_is_rejected() {
    // "BB8" decodes to two bytes that are no zlib stream.
    assert_eq!(load_sign1(b"HC1:BB8"), Err(LoadError::Decompression));
}

#[test]
fn bad_envelope_is_rejected() {
    // Well-compressed streams that hold no envelope; at least one of
    // the two candidate contents compresses to an even length.
    for content in [&[0xa0u8, 0x00][..], &[0xa0u8][..]] {
        let compressed = deflate(content);
        if compressed.len() % 2 != 0 {
            continue;
        }
        let mut t = b"HC1:".to_vec();
        t.extend_from_slice(&base45_encode(&compressed));
        assert_eq!(load_sign1(&t), Err(LoadError::Envelope(CwtError::MalformedEnvelope)));
        return;
    }
    panic!("no candidate compressed to an even length");
}

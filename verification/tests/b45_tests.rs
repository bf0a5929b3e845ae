use dcc_decode::b45::{base45_cdec, base45_cval, base45_decode, base45_encode, Base45Error};

#[test]
fn cval_digits_letters_punctuation() {
    assert_eq!(base45_cval(b'0'), Ok(0));
    assert_eq!(base45_cval(b'9'), Ok(9));
    assert_eq!(base45_cval(b'A'), Ok(10));
    assert_eq!(base45_cval(b'Z'), Ok(35));
    assert_eq!(base45_cval(b' '), Ok(36));
    assert_eq!(base45_cval(b'$'), Ok(37));
    assert_eq!(base45_cval(b'%'), Ok(38));
    assert_eq!(base45_cval(b'*'), Ok(39));
    assert_eq!(base45_cval(b'+'), Ok(40));
    assert_eq!(base45_cval(b'-'), Ok(41));
    assert_eq!(base45_cval(b'.'), Ok(42));
    assert_eq!(base45_cval(b'/'), Ok(43));
    assert_eq!(base45_cval(b':'), Ok(44));
}

#[test]
fn cval_rejects_other_bytes() {
    assert_eq!(base45_cval(b'a'), Err(Base45Error::InvalidChar(b'a')));
    assert_eq!(base45_cval(b'!'), Err(Base45Error::InvalidChar(b'!')));
    assert_eq!(base45_cval(0), Err(Base45Error::InvalidChar(0)));
    assert_eq!(base45_cval(255), Err(Base45Error::InvalidChar(255)));
}

#[test]
fn cdec_little_endian_value() {
    // 'B','B','8': 11 + 45*11 + 2025*8 = 16706 = 0x4142, little-endian pair.
    assert_eq!(base45_cdec(b'B', b'B', b'8'), Ok((0x42, 0x41)));
    // '0','0','0' encodes zero.
    assert_eq!(base45_cdec(b'0', b'0', b'0'), Ok((0, 0)));
    // Maximum 16-bit value: 65535 = 15 + 45*16 + 2025*32.
    assert_eq!(base45_cdec(b'F', b'G', b'W'), Ok((0xff, 0xff)));
}

#[test]
fn cdec_rejects_oversized_sum() {
    // ':',':',':' gives 44 + 45*44 + 2025*44 = 91124 > 65535.
    assert_eq!(base45_cdec(b':', b':', b':'), Err(Base45Error::InvalidTriple(91124)));
}

#[test]
fn cdec_reports_first_invalid_char() {
    assert_eq!(base45_cdec(b'!', b'?', b'0'), Err(Base45Error::InvalidChar(b'!')));
    assert_eq!(base45_cdec(b'0', b'?', b'0'), Err(Base45Error::InvalidChar(b'?')));
}

#[test]
fn decode_groups_in_order() {
    let out = base45_decode(b"BB8BB8").unwrap();
    assert_eq!(out, vec![0x42, 0x41, 0x42, 0x41]);
    assert_eq!(base45_decode(b"").unwrap(), Vec::<u8>::new());
}

#[test]
fn decode_rejects_invalid_characters() {
    assert_eq!(base45_decode(b"BB8a00"), Err(Base45Error::InvalidChar(b'a')));
    // Corrupt token material built from known-invalid characters.
    assert_eq!(base45_decode(b"hc1low"), Err(Base45Error::InvalidChar(b'h')));
}

#[test]
fn decode_rejects_trailing_groups() {
    assert_eq!(base45_decode(b"BB8Q"), Err(Base45Error::TruncatedInput));
    assert_eq!(base45_decode(b"BB8QQ"), Err(Base45Error::TruncatedInput));
    assert_eq!(base45_decode(b"Q"), Err(Base45Error::TruncatedInput));
    assert_eq!(base45_decode(b"QQ"), Err(Base45Error::TruncatedInput));
}

#[test]
fn encode_exact_symbols() {
    // 0x41 + 256*0x42 = 16961 = 41 + 45*76... check against decode instead:
    // 16961 % 45 = 41 -> '-', (16961/45) % 45 = 16 -> 'G', 16961/2025 = 8 -> '8'.
    assert_eq!(base45_encode(&[0x41, 0x42]), b"-G8".to_vec());
    assert_eq!(base45_encode(&[]), Vec::<u8>::new());
}

#[test]
fn round_trip_even_buffers() {
    let bufs: Vec<Vec<u8>> = vec![
        vec![],
        vec![0, 0],
        vec![255, 255],
        vec![1, 2, 3, 4, 5, 6],
        (0..=255).collect(),
    ];
    for b in bufs {
        let enc = base45_encode(&b);
        assert_eq!(base45_decode(&enc).unwrap(), b);
    }
}

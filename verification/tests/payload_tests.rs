use dcc_decode::dcc::{parse_date, CertPayload, Date, DccError};
use dcc_decode::valuesets::{resolve, EhnData, Value, ValueSet, ValueSetEntry};

fn head(major: u8, val: u64) -> Vec<u8> {
    let mut out = Vec::new();
    if val < 24 {
        out.push(major * 32 + val as u8);
    } else if val < 256 {
        out.push(major * 32 + 24);
        out.push(val as u8);
    } else if val < 65536 {
        out.push(major * 32 + 25);
        out.push((val / 256) as u8);
        out.push((val % 256) as u8);
    } else {
        out.push(major * 32 + 26);
        out.push((val >> 24) as u8);
        out.push((val >> 16) as u8);
        out.push((val >> 8) as u8);
        out.push(val as u8);
    }
    out
}

fn tstr(s: &str) -> Vec<u8> {
    let mut out = head(3, s.len() as u64);
    out.extend_from_slice(s.as_bytes());
    out
}

fn uint(v: u64) -> Vec<u8> {
    head(0, v)
}

/// The map key -260 of the health claim: major 1, value 259.
fn key_health_claim() -> Vec<u8> {
    head(1, 259)
}

fn vaccination_bytes() -> Vec<u8> {
    let mut v = head(5, 10);
    v.extend_from_slice(&tstr("tg"));
    v.extend_from_slice(&tstr("840539006"));
    v.extend_from_slice(&tstr("vp"));
    v.extend_from_slice(&tstr("1119349007"));
    v.extend_from_slice(&tstr("mp"));
    v.extend_from_slice(&tstr("EU/1/20/1528"));
    v.extend_from_slice(&tstr("ma"));
    v.extend_from_slice(&tstr("ORG-100030215"));
    v.extend_from_slice(&tstr("dn"));
    v.extend_from_slice(&uint(2));
    v.extend_from_slice(&tstr("sd"));
    v.extend_from_slice(&uint(2));
    v.extend_from_slice(&tstr("dt"));
    v.extend_from_slice(&tstr("2021-06-11"));
    v.extend_from_slice(&tstr("co"));
    v.extend_from_slice(&tstr("DE"));
    v.extend_from_slice(&tstr("is"));
    v.extend_from_slice(&tstr("RKI"));
    v.extend_from_slice(&tstr("ci"));
    v.extend_from_slice(&tstr("URN:UVCI:01DE/A1"));
    v
}

fn dcc_bytes() -> Vec<u8> {
    let mut d = head(5, 4);
    d.extend_from_slice(&tstr("v"));
    d.extend_from_slice(&head(4, 1));
    d.extend_from_slice(&vaccination_bytes());
    d.extend_from_slice(&tstr("dob"));
    d.extend_from_slice(&tstr("1990-01-01"));
    d.extend_from_slice(&tstr("nam"));
    d.extend_from_slice(&head(5, 4));
    d.extend_from_slice(&tstr("fn"));
    d.extend_from_slice(&tstr("Muster"));
    d.extend_from_slice(&tstr("gn"));
    d.extend_from_slice(&tstr("Erika"));
    d.extend_from_slice(&tstr("fnt"));
    d.extend_from_slice(&tstr("MUSTER"));
    d.extend_from_slice(&tstr("gnt"));
    d.extend_from_slice(&tstr("ERIKA"));
    d.extend_from_slice(&tstr("ver"));
    d.extend_from_slice(&tstr("1.3.0"));
    d
}

fn health_claim_bytes() -> Vec<u8> {
    let mut h = head(5, 1);
    h.extend_from_slice(&uint(1));
    h.extend_from_slice(&dcc_bytes());
    h
}

/// The payload of P4-style tests: issuer "X", the two timestamps, the
/// health claim, and optionally one unrecognized numeric key.
fn payload_bytes(with_health_claim: bool, with_unknown_key: bool) -> Vec<u8> {
    let count = 3 + with_health_claim as u64 + with_unknown_key as u64;
    let mut p = head(5, count);
    p.extend_from_slice(&uint(1));
    p.extend_from_slice(&tstr("X"));
    p.extend_from_slice(&uint(4));
    p.extend_from_slice(&uint(1700000000));
    p.extend_from_slice(&uint(6));
    p.extend_from_slice(&uint(1690000000));
    if with_unknown_key {
        p.extend_from_slice(&uint(99));
        p.extend_from_slice(&tstr("ignored"));
    }
    if with_health_claim {
        p.extend_from_slice(&key_health_claim());
        p.extend_from_slice(&health_claim_bytes());
    }
    p
}

#[test]
fn payload_with_unknown_key_decodes() {
    let bytes = payload_bytes(true, true);
    let p = CertPayload::decode(&bytes, &EhnData::default()).unwrap();
    assert_eq!(p.issuer, b"X".to_vec());
    assert_eq!(p.expiration_time, 1700000000);
    assert_eq!(p.issued_at, 1690000000);
    let cert = &p.health_claim.cert;
    assert_eq!(cert.version, b"1.3.0".to_vec());
    assert_eq!(cert.date_of_birth, Date { year: 1990, month: 1, day: 1 });
    assert_eq!(cert.name.first_name, b"Muster".to_vec());
    assert_eq!(cert.name.given_name, b"Erika".to_vec());
    assert_eq!(cert.name.first_name_transliterated, b"MUSTER".to_vec());
    assert_eq!(cert.name.given_name_transliterated, b"ERIKA".to_vec());
    assert_eq!(cert.vaccine.len(), 1);
    let vac = &cert.vaccine[0];
    assert_eq!(vac.disease_agent_targeted.key, b"840539006".to_vec());
    assert_eq!(vac.disease_agent_targeted.value, None);
    assert_eq!(vac.dose_number, 2);
    assert_eq!(vac.series_dose_number, 2);
    assert_eq!(vac.date, Date { year: 2021, month: 6, day: 11 });
    assert_eq!(vac.country, b"DE".to_vec());
    assert_eq!(vac.issuer, b"RKI".to_vec());
    assert_eq!(vac.cert_identifier, b"URN:UVCI:01DE/A1".to_vec());
}

#[test]
fn payload_missing_health_claim_fails() {
    let bytes = payload_bytes(false, false);
    let err = CertPayload::decode(&bytes, &EhnData::default()).unwrap_err();
    match err {
        DccError::MissingField(f) => assert_eq!(f.name(), "health_claim"),
        other => panic!("expected a missing field, got {:?}", other),
    }
}

#[test]
fn payload_missing_issuer_fails() {
    let mut p = head(5, 3);
    p.extend_from_slice(&uint(4));
    p.extend_from_slice(&uint(1700000000));
    p.extend_from_slice(&uint(6));
    p.extend_from_slice(&uint(1690000000));
    p.extend_from_slice(&key_health_claim());
    p.extend_from_slice(&health_claim_bytes());
    let err = CertPayload::decode(&p, &EhnData::default()).unwrap_err();
    match err {
        DccError::MissingField(f) => assert_eq!(f.name(), "issuer"),
        other => panic!("expected a missing field, got {:?}", other),
    }
}

#[test]
fn payload_with_wrong_shape_fails_as_malformed() {
    // Issuer present but carried as an integer instead of text.
    let mut p = head(5, 4);
    p.extend_from_slice(&uint(1));
    p.extend_from_slice(&uint(7));
    p.extend_from_slice(&uint(4));
    p.extend_from_slice(&uint(1700000000));
    p.extend_from_slice(&uint(6));
    p.extend_from_slice(&uint(1690000000));
    p.extend_from_slice(&key_health_claim());
    p.extend_from_slice(&health_claim_bytes());
    let err = CertPayload::decode(&p, &EhnData::default()).unwrap_err();
    match err {
        DccError::MalformedField(f) => assert_eq!(f.name(), "issuer"),
        other => panic!("expected a malformed field, got {:?}", other),
    }
}

#[test]
fn payload_trailing_bytes_fail() {
    let mut bytes = payload_bytes(true, false);
    bytes.push(0);
    let err = CertPayload::decode(&bytes, &EhnData::default()).unwrap_err();
    assert!(matches!(err, DccError::MalformedField(_)));
}

#[test]
fn empty_vaccination_list_fails() {
    // A certificate record whose "v" holds an empty array.
    let mut d = head(5, 1);
    d.extend_from_slice(&tstr("v"));
    d.extend_from_slice(&head(4, 0));
    let mut h = head(5, 1);
    h.extend_from_slice(&uint(1));
    h.extend_from_slice(&d);
    let mut p = head(5, 4);
    p.extend_from_slice(&uint(1));
    p.extend_from_slice(&tstr("X"));
    p.extend_from_slice(&uint(4));
    p.extend_from_slice(&uint(1));
    p.extend_from_slice(&uint(6));
    p.extend_from_slice(&uint(1));
    p.extend_from_slice(&key_health_claim());
    p.extend_from_slice(&h);
    let err = CertPayload::decode(&p, &EhnData::default()).unwrap_err();
    match err {
        DccError::MalformedField(f) => assert_eq!(f.name(), "v"),
        other => panic!("expected a malformed field, got {:?}", other),
    }
}

fn sample_value(display: &str) -> Value {
    Value {
        display: display.as_bytes().to_vec(),
        lang: b"en".to_vec(),
        active: true,
        version: b"1".to_vec(),
        system: b"http://snomed.info/sct".to_vec(),
    }
}

fn agent_set() -> ValueSet {
    ValueSet {
        id: b"disease-agent-targeted".to_vec(),
        date: Date { year: 2021, month: 4, day: 27 },
        values: vec![(b"840539006".to_vec(), sample_value("COVID-19"))],
    }
}

#[test]
fn coded_values_resolve_against_value_sets() {
    let ehn = EhnData { disease_agent_targeted: Some(agent_set()), ..EhnData::default() };
    let bytes = payload_bytes(true, false);
    let p = CertPayload::decode(&bytes, &ehn).unwrap();
    let tg = &p.health_claim.cert.vaccine[0].disease_agent_targeted;
    assert_eq!(tg.key, b"840539006".to_vec());
    assert_eq!(tg.value.as_ref().unwrap().display, b"COVID-19".to_vec());
    // The other coded fields had no value set: raw code, no metadata.
    assert_eq!(p.health_claim.cert.vaccine[0].manufacturer.value, None);
}

#[test]
fn resolution_failure_keeps_raw_code() {
    let entry: ValueSetEntry = resolve(&None, b"840539006".to_vec());
    assert_eq!(entry.key, b"840539006".to_vec());
    assert_eq!(entry.value, None);
    let entry = resolve(&Some(agent_set()), b"unknown-code".to_vec());
    assert_eq!(entry.key, b"unknown-code".to_vec());
    assert_eq!(entry.value, None);
    let entry = resolve(&Some(agent_set()), b"840539006".to_vec());
    assert_eq!(entry.value.unwrap().display, b"COVID-19".to_vec());
}

#[test]
fn date_parsing_accepts_real_dates_only() {
    assert_eq!(parse_date(b"2021-06-11"), Some(Date { year: 2021, month: 6, day: 11 }));
    assert_eq!(parse_date(b"2020-02-29"), Some(Date { year: 2020, month: 2, day: 29 }));
    assert_eq!(parse_date(b"2000-02-29"), Some(Date { year: 2000, month: 2, day: 29 }));
    assert_eq!(parse_date(b"1900-02-29"), None);
    assert_eq!(parse_date(b"2021-02-29"), None);
    assert_eq!(parse_date(b"2021-02-30"), None);
    assert_eq!(parse_date(b"2021-04-31"), None);
    assert_eq!(parse_date(b"2021-13-01"), None);
    assert_eq!(parse_date(b"2021-00-01"), None);
    assert_eq!(parse_date(b"2021-01-00"), None);
    assert_eq!(parse_date(b"2021/01/01"), None);
    assert_eq!(parse_date(b"21-01-01"), None);
    assert_eq!(parse_date(b"2021-1-1 "), None);
}

#[test]
fn bad_date_in_payload_is_malformed() {
    let mut v = head(5, 10);
    v.extend_from_slice(&tstr("tg"));
    v.extend_from_slice(&tstr("840539006"));
    v.extend_from_slice(&tstr("vp"));
    v.extend_from_slice(&tstr("1119349007"));
    v.extend_from_slice(&tstr("mp"));
    v.extend_from_slice(&tstr("EU/1/20/1528"));
    v.extend_from_slice(&tstr("ma"));
    v.extend_from_slice(&tstr("ORG-100030215"));
    v.extend_from_slice(&tstr("dn"));
    v.extend_from_slice(&uint(2));
    v.extend_from_slice(&tstr("sd"));
    v.extend_from_slice(&uint(2));
    v.extend_from_slice(&tstr("dt"));
    v.extend_from_slice(&tstr("2021-02-30"));
    v.extend_from_slice(&tstr("co"));
    v.extend_from_slice(&tstr("DE"));
    v.extend_from_slice(&tstr("is"));
    v.extend_from_slice(&tstr("RKI"));
    v.extend_from_slice(&tstr("ci"));
    v.extend_from_slice(&tstr("URN:UVCI:01DE/A1"));
    let mut d = head(5, 4);
    d.extend_from_slice(&tstr("v"));
    d.extend_from_slice(&head(4, 1));
    d.extend_from_slice(&v);
    d.extend_from_slice(&tstr("dob"));
    d.extend_from_slice(&tstr("1990-01-01"));
    d.extend_from_slice(&tstr("nam"));
    d.extend_from_slice(&head(5, 0));
    d.extend_from_slice(&tstr("ver"));
    d.extend_from_slice(&tstr("1.3.0"));
    let mut h = head(5, 1);
    h.extend_from_slice(&uint(1));
    h.extend_from_slice(&d);
    let mut p = head(5, 4);
    p.extend_from_slice(&uint(1));
    p.extend_from_slice(&tstr("X"));
    p.extend_from_slice(&uint(4));
    p.extend_from_slice(&uint(1));
    p.extend_from_slice(&uint(6));
    p.extend_from_slice(&uint(1));
    p.extend_from_slice(&key_health_claim());
    p.extend_from_slice(&h);
    let err = CertPayload::decode(&p, &EhnData::default()).unwrap_err();
    match err {
        DccError::MalformedField(f) => assert_eq!(f.name(), "dt"),
        other => panic!("expected a malformed field, got {:?}", other),
    }
}

#[test]
fn wide_integer_heads_carry_the_same_values() {
    // expiration as an 8-byte argument, issue time as a 2-byte-head u16.
    let mut p = head(5, 4);
    p.extend_from_slice(&uint(1));
    p.extend_from_slice(&tstr("X"));
    p.extend_from_slice(&uint(4));
    p.extend_from_slice(&[0x1b, 0, 0, 0, 0, 0x65, 0x53, 0xf1, 0x00]);
    p.extend_from_slice(&uint(6));
    p.extend_from_slice(&[0x19, 0xff, 0xff]);
    p.extend_from_slice(&key_health_claim());
    p.extend_from_slice(&health_claim_bytes());
    let got = CertPayload::decode(&p, &EhnData::default()).unwrap();
    assert_eq!(got.expiration_time, 1700000000);
    assert_eq!(got.issued_at, 65535);
}

#[test]
fn deeply_nested_unknown_values_are_skipped() {
    // Unknown key 99 carries a tagged map holding an array of strings.
    let mut unknown = head(6, 1000);
    unknown.extend_from_slice(&head(5, 2));
    unknown.extend_from_slice(&uint(1));
    unknown.extend_from_slice(&head(4, 2));
    unknown.extend_from_slice(&tstr("a"));
    unknown.extend_from_slice(&tstr("bb"));
    unknown.extend_from_slice(&tstr("k"));
    unknown.extend_from_slice(&head(2, 3));
    unknown.extend_from_slice(&[9, 9, 9]);
    let mut p = head(5, 5);
    p.extend_from_slice(&uint(1));
    p.extend_from_slice(&tstr("X"));
    p.extend_from_slice(&uint(99));
    p.extend_from_slice(&unknown);
    p.extend_from_slice(&uint(4));
    p.extend_from_slice(&uint(1700000000));
    p.extend_from_slice(&uint(6));
    p.extend_from_slice(&uint(1690000000));
    p.extend_from_slice(&key_health_claim());
    p.extend_from_slice(&health_claim_bytes());
    let got = CertPayload::decode(&p, &EhnData::default()).unwrap();
    assert_eq!(got.issuer, b"X".to_vec());
}

#[test]
fn duplicate_keys_keep_the_later_value() {
    let mut p = head(5, 5);
    p.extend_from_slice(&uint(1));
    p.extend_from_slice(&tstr("first"));
    p.extend_from_slice(&uint(1));
    p.extend_from_slice(&tstr("second"));
    p.extend_from_slice(&uint(4));
    p.extend_from_slice(&uint(1));
    p.extend_from_slice(&uint(6));
    p.extend_from_slice(&uint(2));
    p.extend_from_slice(&key_health_claim());
    p.extend_from_slice(&health_claim_bytes());
    let got = CertPayload::decode(&p, &EhnData::default()).unwrap();
    assert_eq!(got.issuer, b"second".to_vec());
}

#[test]
fn unknown_keys_in_nested_records_are_ignored() {
    // A name map with an extra unknown key.
    let mut nam = head(5, 5);
    nam.extend_from_slice(&tstr("fn"));
    nam.extend_from_slice(&tstr("Muster"));
    nam.extend_from_slice(&tstr("gn"));
    nam.extend_from_slice(&tstr("Erika"));
    nam.extend_from_slice(&tstr("zz"));
    nam.extend_from_slice(&head(4, 2));
    nam.extend_from_slice(&uint(1));
    nam.extend_from_slice(&uint(2));
    nam.extend_from_slice(&tstr("fnt"));
    nam.extend_from_slice(&tstr("MUSTER"));
    nam.extend_from_slice(&tstr("gnt"));
    nam.extend_from_slice(&tstr("ERIKA"));
    let (name, used) = dcc_decode::dcc::decode_name(&nam, 0).unwrap();
    assert_eq!(used, nam.len());
    assert_eq!(name.first_name, b"Muster".to_vec());
    assert_eq!(name.given_name_transliterated, b"ERIKA".to_vec());
}

use dcc_decode::cert::{
    get_pk_sig_algorithm, load_public_key, verify, verify_with_spki, Algorithm, CertType,
    Certificate, Prime, TrustList, VerificationError,
};
use dcc_decode::cwt::{sig_structure, Sign1};
use dcc_decode::sig::{EcdsaSigValue, ObjectIdentifier, PublicKey};
use ring::signature::KeyPair;

const OID_EC: [u8; 7] = [0x2a, 0x86, 0x48, 0xce, 0x3d, 0x02, 0x01];
const OID_P256: [u8; 8] = [0x2a, 0x86, 0x48, 0xce, 0x3d, 0x03, 0x01, 0x07];
const OID_RSA: [u8; 9] = [0x2a, 0x86, 0x48, 0x86, 0xf7, 0x0d, 0x01, 0x01, 0x01];
const OID_ECDSA_SHA256: [u8; 8] = [0x2a, 0x86, 0x48, 0xce, 0x3d, 0x04, 0x03, 0x02];

fn fresh_keypair() -> (ring::signature::EcdsaKeyPair, Vec<u8>) {
    let rng = ring::rand::SystemRandom::new();
    let pkcs8 = ring::signature::EcdsaKeyPair::generate_pkcs8(
        &ring::signature::ECDSA_P256_SHA256_FIXED_SIGNING,
        &rng,
    )
    .unwrap();
    let kp = ring::signature::EcdsaKeyPair::from_pkcs8(
        &ring::signature::ECDSA_P256_SHA256_FIXED_SIGNING,
        pkcs8.as_ref(),
        &rng,
    )
    .unwrap();
    let public = kp.public_key().as_ref().to_vec();
    (kp, public)
}

fn signed_envelope(kp: &ring::signature::EcdsaKeyPair) -> Sign1 {
    let rng = ring::rand::SystemRandom::new();
    let protected = vec![0xa1, 0x01, 0x26];
    let payload = vec![0x01, 0x02, 0x03, 0x04];
    let msg = sig_structure(&protected, &payload);
    let sig = kp.sign(&rng, &msg).unwrap().as_ref().to_vec();
    Sign1 { protected, kid: vec![0x11], payload, signature: sig }
}

#[test]
fn valid_signature_verifies() {
    let (kp, public) = fresh_keypair();
    let s1 = signed_envelope(&kp);
    assert_eq!(verify_with_spki(&s1, &OID_EC, &Some(OID_P256.to_vec()), &public), Ok(()));
}

#[test]
fn flipped_signature_bit_fails() {
    let (kp, public) = fresh_keypair();
    let mut s1 = signed_envelope(&kp);
    s1.signature[10] ^= 1;
    assert_eq!(
        verify_with_spki(&s1, &OID_EC, &Some(OID_P256.to_vec()), &public),
        Err(VerificationError::SignatureInvalid)
    );
}

#[test]
fn flipped_payload_bit_fails() {
    let (kp, public) = fresh_keypair();
    let mut s1 = signed_envelope(&kp);
    s1.payload[0] ^= 1;
    assert_eq!(
        verify_with_spki(&s1, &OID_EC, &Some(OID_P256.to_vec()), &public),
        Err(VerificationError::SignatureInvalid)
    );
}

#[test]
fn other_algorithm_is_unsupported() {
    let (kp, public) = fresh_keypair();
    let s1 = signed_envelope(&kp);
    // An RSA identifier, an EC key on another curve, and a missing
    // curve parameter are all the explicit unsupported outcome.
    assert_eq!(
        verify_with_spki(&s1, &OID_RSA, &None, &public),
        Err(VerificationError::UnsupportedAlgorithm)
    );
    assert_eq!(
        verify_with_spki(&s1, &OID_EC, &Some(OID_RSA.to_vec()), &public),
        Err(VerificationError::UnsupportedAlgorithm)
    );
    assert_eq!(
        verify_with_spki(&s1, &OID_EC, &None, &public),
        Err(VerificationError::UnsupportedAlgorithm)
    );
}

#[test]
fn algorithm_dispatch_is_exact() {
    assert_eq!(
        get_pk_sig_algorithm(&OID_EC, &Some(OID_P256.to_vec())),
        Ok(Algorithm::IdEcPublicKey(Prime::Prime256v1))
    );
    assert_eq!(
        get_pk_sig_algorithm(&OID_RSA, &Some(OID_P256.to_vec())),
        Err(VerificationError::UnsupportedAlgorithm)
    );
    assert_eq!(get_pk_sig_algorithm(&OID_EC, &None), Err(VerificationError::UnsupportedAlgorithm));
}

#[test]
fn object_identifier_recognition() {
    assert_eq!(ObjectIdentifier::load(&OID_EC), Some(ObjectIdentifier::IdEcPublicKey));
    assert_eq!(ObjectIdentifier::load(&OID_P256), Some(ObjectIdentifier::Prime256v1));
    assert_eq!(ObjectIdentifier::load(&OID_RSA), None);
}

fn cert_with_kid(kid: &[u8], country: &str) -> Certificate {
    Certificate {
        certificate_type: CertType::DCC,
        country: country.to_string(),
        kid: kid.to_vec(),
        raw_data: vec![],
        signature: vec![],
        thumbprint: String::new(),
        timestamp: String::new(),
    }
}

#[test]
fn trust_store_lookup_is_exact_and_first_match() {
    let list = TrustList {
        certificates: vec![
            cert_with_kid(&[1, 2, 3], "DE"),
            cert_with_kid(&[4, 5], "AT"),
            cert_with_kid(&[4, 5], "FR"),
        ],
    };
    // An absent identifier returns no match: untrusted, not a failure.
    assert!(list.find_by_key_id(&[9, 9]).is_none());
    assert!(list.find_by_key_id(&[]).is_none());
    assert!(list.find_by_key_id(&[1, 2]).is_none());
    assert_eq!(list.find_by_key_id(&[1, 2, 3]).unwrap().country, "DE");
    // Two entries share an identifier: the first in load order wins.
    assert_eq!(list.find_by_key_id(&[4, 5]).unwrap().country, "AT");
}

#[test]
fn ecdsa_sig_value_der_encoding() {
    // Plain two-byte halves below the sign bit.
    let v = EcdsaSigValue::new(&[0x01, 0x02], &[0x03]);
    assert_eq!(v.encode(), vec![0x30, 0x07, 0x02, 0x02, 0x01, 0x02, 0x02, 0x01, 0x03]);
    // A high first bit takes a leading zero; leading zeros are dropped;
    // the value zero is one zero byte.
    let v = EcdsaSigValue::new(&[0x80], &[0x00, 0x00]);
    assert_eq!(v.encode(), vec![0x30, 0x07, 0x02, 0x02, 0x00, 0x80, 0x02, 0x01, 0x00]);
    let v = EcdsaSigValue::new(&[0x00, 0x7f], &[]);
    assert_eq!(v.encode(), vec![0x30, 0x06, 0x02, 0x01, 0x7f, 0x02, 0x01, 0x00]);
}

fn der(tag: u8, content: &[u8]) -> Vec<u8> {
    let mut out = vec![tag];
    let n = content.len();
    if n < 128 {
        out.push(n as u8);
    } else if n < 256 {
        out.push(0x81);
        out.push(n as u8);
    } else {
        out.push(0x82);
        out.push((n / 256) as u8);
        out.push((n % 256) as u8);
    }
    out.extend_from_slice(content);
    out
}

/// A minimal unsigned certificate around the given subject public key.
fn minimal_cert(alg_oid: &[u8], param_oid: Option<&[u8]>, key_bits: &[u8]) -> Vec<u8> {
    let serial = der(0x02, &[1]);
    let sig_alg = der(0x30, &der(0x06, &OID_ECDSA_SHA256));
    let empty_name = der(0x30, &[]);
    let validity = {
        let mut v = der(0x17, b"200101000000Z");
        v.extend_from_slice(&der(0x17, b"400101000000Z"));
        der(0x30, &v)
    };
    let spki = {
        let mut alg = der(0x06, alg_oid);
        if let Some(p) = param_oid {
            alg.extend_from_slice(&der(0x06, p));
        }
        let alg_seq = der(0x30, &alg);
        let mut bits = vec![0u8];
        bits.extend_from_slice(key_bits);
        let mut s = alg_seq;
        s.extend_from_slice(&der(0x03, &bits));
        der(0x30, &s)
    };
    let mut tbs_content = serial;
    tbs_content.extend_from_slice(&sig_alg);
    tbs_content.extend_from_slice(&empty_name);
    tbs_content.extend_from_slice(&validity);
    tbs_content.extend_from_slice(&empty_name);
    tbs_content.extend_from_slice(&spki);
    let tbs = der(0x30, &tbs_content);
    let mut cert_content = tbs;
    cert_content.extend_from_slice(&der(0x30, &der(0x06, &OID_ECDSA_SHA256)));
    cert_content.extend_from_slice(&der(0x03, &[0u8, 1, 2, 3]));
    der(0x30, &cert_content)
}

#[test]
fn public_key_extraction_from_certificate() {
    let (kp, public) = fresh_keypair();
    let cert = minimal_cert(&OID_EC, Some(&OID_P256), &public);
    let pk: PublicKey = load_public_key(&cert).unwrap();
    assert_eq!(pk.algorithm, Algorithm::IdEcPublicKey(Prime::Prime256v1));
    assert_eq!(pk.data, public);
    // And the whole envelope check against the certificate.
    let s1 = signed_envelope(&kp);
    let mut signer = cert_with_kid(&[0x11], "DE");
    signer.raw_data = cert;
    assert_eq!(verify(&s1, &signer), Ok(()));
    let mut bad = s1.clone();
    bad.signature[3] ^= 0x40;
    assert_eq!(verify(&bad, &signer), Err(VerificationError::SignatureInvalid));
}

#[test]
fn certificate_with_other_algorithm_is_unsupported() {
    let (kp, public) = fresh_keypair();
    let cert = minimal_cert(&OID_RSA, None, &public);
    assert_eq!(load_public_key(&cert), Err(VerificationError::UnsupportedAlgorithm));
    let s1 = signed_envelope(&kp);
    let mut signer = cert_with_kid(&[0x11], "DE");
    signer.raw_data = cert;
    assert_eq!(verify(&s1, &signer), Err(VerificationError::UnsupportedAlgorithm));
}

#[test]
fn garbage_certificate_is_unsupported() {
    assert_eq!(load_public_key(&[0x01, 0x02]), Err(VerificationError::UnsupportedAlgorithm));
}

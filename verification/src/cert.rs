//! The trust store of signer certificates, the algorithm dispatch on a
//! signer's declared public-key algorithm, and signature verification
//! over the reconstructed signing bytes.

use vstd::prelude::*;

use crate::cbor::bytes_eq;
use crate::cwt::{sig_structure, spec_sig_structure, Sign1, SpecSign1};
use crate::sig::PublicKey;
use vstd::slice::slice_index_get;

verus! {

/// The kind of a trust-list entry.
#[derive(Debug, Clone, Copy, PartialEq, Eq, Structural)]
pub enum CertType {
    DCC,
    Other,
}

/// One trusted signer: its key identifier and raw certificate bytes are
/// what verification consumes; the rest is carried for display.
#[derive(Debug, Clone)]
pub struct Certificate {
    pub certificate_type: CertType,
    pub country: String,
    pub kid: Vec<u8>,
    pub raw_data: Vec<u8>,
    pub signature: Vec<u8>,
    pub thumbprint: String,
    pub timestamp: String,
}

/// The trust list: the signer certificates this system accepts, in load
/// order.
#[derive(Debug, Clone)]
pub struct TrustList {
    pub certificates: Vec<Certificate>,
}

/// The index of the first certificate whose key identifier equals `id`.
pub open spec fn spec_find_kid(certs: Seq<Certificate>, id: Seq<u8>) -> Option<int>
    decreases certs.len(),
{
    if certs.len() == 0 {
        None
    } else if certs[0].kid@ == id {
        Some(0)
    } else {
        match spec_find_kid(certs.skip(1), id) {
            None => None,
            Some(i) => Some(i + 1),
        }
    }
}

/// The first match is a match, every earlier entry is not, and absence
/// means no entry matches at all.
pub proof fn lemma_find_kid(certs: Seq<Certificate>, id: Seq<u8>)
    ensures
        spec_find_kid(certs, id) matches Some(i) ==> 0 <= i < certs.len() && certs[i].kid@ == id
            && (forall|j: int| 0 <= j < i ==> certs[j].kid@ != id),
        spec_find_kid(certs, id) is None ==> forall|j: int|
            0 <= j < certs.len() ==> certs[j].kid@ != id,
    decreases certs.len(),
{
    if certs.len() > 0 && certs[0].kid@ != id {
        lemma_find_kid(certs.skip(1), id);
        assert(forall|j: int| 1 <= j < certs.len() ==> certs[j] == certs.skip(1)[j - 1]);
    }
}

impl TrustList {
    /// Looks up a signer by key identifier, compared as opaque byte
    /// strings; the first entry in load order wins. Absence of a match
    /// is not an error: it signals an untrusted envelope.
    pub fn find_by_key_id(&self, id: &[u8]) -> (r: Option<&Certificate>)
        ensures
            r matches Some(c) ==> spec_find_kid(self.certificates@, id@) matches Some(i) && *c
                == self.certificates@[i],
            r is None ==> spec_find_kid(self.certificates@, id@) is None,
    {
        let n = self.certificates.len();
        let certs = self.certificates.as_slice();
        let mut k: usize = 0;
        proof {
            assert(self.certificates@.skip(0) =~= self.certificates@);
        }
        while k < n
            invariant
                k <= n,
                n == self.certificates@.len(),
                certs@ == self.certificates@,
                spec_find_kid(self.certificates@, id@) == (match spec_find_kid(
                    self.certificates@.skip(k as int),
                    id@,
                ) {
                    None => None::<int>,
                    Some(i) => Some(i + k),
                }),
            decreases n - k,
        {
            proof {
                assert(self.certificates@.skip(k as int)[0] == self.certificates@[k as int]);
                assert(self.certificates@.skip(k as int).skip(1) =~= self.certificates@.skip(
                    k as int + 1,
                ));
            }
            let c = slice_index_get(certs, k);
            if bytes_eq(c.kid.as_slice(), id) {
                return Some(c);
            }
            k = k + 1;
        }
        proof {
            assert(self.certificates@.skip(k as int).len() == 0);
        }
        None
    }
}

/// The named curves this system recognizes.
#[derive(Debug, Clone, Copy, PartialEq, Eq, Structural)]
pub enum Prime {
    Prime256v1,
}

/// The (key type, curve) pairs this system recognizes; anything else is
/// an explicit unsupported outcome, never a silent pass.
#[derive(Debug, Clone, Copy, PartialEq, Eq, Structural)]
pub enum Algorithm {
    IdEcPublicKey(Prime),
}

/// The outcomes of signature verification that are not success.
#[derive(Debug, Clone, Copy, PartialEq, Eq, Structural)]
pub enum VerificationError {
    /// The signer's certificate declares a key algorithm or curve this
    /// system does not support.
    UnsupportedAlgorithm,
    /// The cryptographic comparison failed.
    SignatureInvalid,
}

/// The object-identifier content bytes of the elliptic-curve public-key
/// algorithm.
pub open spec fn spec_oid_ec(s: Seq<u8>) -> bool {
    s =~= seq![42u8, 134u8, 72u8, 206u8, 61u8, 2u8, 1u8]
}

/// The object-identifier content bytes of the supported named curve.
pub open spec fn spec_oid_p256(s: Seq<u8>) -> bool {
    s =~= seq![42u8, 134u8, 72u8, 206u8, 61u8, 3u8, 1u8, 7u8]
}

/// Whether an algorithm identifier with its optional parameter names
/// the one supported combination.
pub open spec fn spec_supported_alg(alg: Seq<u8>, params: Option<Seq<u8>>) -> bool {
    spec_oid_ec(alg) && (params matches Some(p) && spec_oid_p256(p))
}

/// Recognizes the elliptic-curve public-key algorithm identifier bytes.
pub fn is_oid_ec(b: &[u8]) -> (r: bool)
    ensures
        r == spec_oid_ec(b@),
{
    let r = b.len() == 7 && b[0] == 42 && b[1] == 134 && b[2] == 72 && b[3] == 206 && b[4] == 61
        && b[5] == 2 && b[6] == 1;
    proof {
        if r {
            assert(b@ =~= seq![42u8, 134u8, 72u8, 206u8, 61u8, 2u8, 1u8]);
        } else {
            assert(!(b@ =~= seq![42u8, 134u8, 72u8, 206u8, 61u8, 2u8, 1u8]));
        }
    }
    r
}

/// Recognizes the supported named-curve identifier bytes.
pub fn is_oid_p256(b: &[u8]) -> (r: bool)
    ensures
        r == spec_oid_p256(b@),
{
    let r = b.len() == 8 && b[0] == 42 && b[1] == 134 && b[2] == 72 && b[3] == 206 && b[4] == 61
        && b[5] == 3 && b[6] == 1 && b[7] == 7;
    proof {
        if r {
            assert(b@ =~= seq![42u8, 134u8, 72u8, 206u8, 61u8, 3u8, 1u8, 7u8]);
        } else {
            assert(!(b@ =~= seq![42u8, 134u8, 72u8, 206u8, 61u8, 3u8, 1u8, 7u8]));
        }
    }
    r
}

/// Determines the signer's declared public-key algorithm from the
/// subject-public-key-info algorithm identifier bytes and its optional
/// object-identifier parameter: exactly the elliptic-curve identifier
/// with the supported named curve is accepted; anything else is the
/// explicit unsupported outcome.
pub fn get_pk_sig_algorithm(alg_oid: &[u8], params: &Option<Vec<u8>>) -> (r: Result<
    Algorithm,
    VerificationError,
>)
    ensures
        spec_supported_alg(alg_oid@, vob_params(*params)) ==> r == Ok::<
            Algorithm,
            VerificationError,
        >(Algorithm::IdEcPublicKey(Prime::Prime256v1)),
        !spec_supported_alg(alg_oid@, vob_params(*params)) ==> r == Err::<
            Algorithm,
            VerificationError,
        >(VerificationError::UnsupportedAlgorithm),
{
    if is_oid_ec(alg_oid) {
        match params {
            Some(p) => {
                if is_oid_p256(p.as_slice()) {
                    return Ok(Algorithm::IdEcPublicKey(Prime::Prime256v1));
                }
                Err(VerificationError::UnsupportedAlgorithm)
            },
            None => Err(VerificationError::UnsupportedAlgorithm),
        }
    } else {
        Err(VerificationError::UnsupportedAlgorithm)
    }
}

/// The byte-string contents of an optional parameter buffer.
pub open spec fn vob_params(o: Option<Vec<u8>>) -> Option<Seq<u8>> {
    match o {
        Some(v) => Some(v@),
        None => None,
    }
}

/// What extracting the subject-public-key-info of a DER certificate
/// yields: the algorithm identifier bytes, its optional
/// object-identifier parameter bytes, and the raw public key bits; or
/// `None` where the bytes are not a well-formed certificate.
pub uninterp spec fn x509_spki(der: Seq<u8>) -> Option<(Seq<u8>, Option<Seq<u8>>, Seq<u8>)>;

/// Relies on x509_parser::parse_x509_certificate: parsing a DER
/// certificate is a function of its bytes alone. Hands out the
/// subject-public-key-info algorithm identifier, its parameter where
/// that parameter is an object identifier, and the public key bits.
#[verifier::external_body]
fn parse_cert_spki(der: &[u8]) -> (r: Option<(Vec<u8>, Option<Vec<u8>>, Vec<u8>)>)
    ensures
        r matches Some(t) ==> x509_spki(der@) == Some(
            (
                t.0@,
                match t.1 {
                    Some(p) => Some(p@),
                    None => None,
                },
                t.2@,
            ),
        ),
        r is None ==> x509_spki(der@) is None,
{
    match x509_parser::parse_x509_certificate(der) {
        Ok((_, cert)) => {
            let spki = &cert.tbs_certificate.subject_pki;
            let alg = spki.algorithm.algorithm.as_bytes().to_vec();
            let params = spki.algorithm.parameters.as_ref().and_then(|p| p.as_oid().ok()).map(
                |o| o.as_bytes().to_vec(),
            );
            let key = spki.subject_public_key.data.to_vec();
            Some((alg, params, key))
        },
        Err(_) => None,
    }
}

/// Whether the fixed-width P-256 / SHA-256 signature scheme accepts the
/// signature over the message under the public key.
pub uninterp spec fn p256_sha256_valid(key: Seq<u8>, msg: Seq<u8>, sig: Seq<u8>) -> bool;

/// Relies on ring's UnparsedPublicKey::verify with the fixed-width
/// P-256 / SHA-256 scheme: verification is a deterministic function of
/// the key, message and signature bytes.
#[verifier::external_body]
fn p256_verify(key: &[u8], msg: &[u8], sig: &[u8]) -> (r: bool)
    ensures
        r == p256_sha256_valid(key@, msg@, sig@),
{
    let pk = ring::signature::UnparsedPublicKey::new(
        &ring::signature::ECDSA_P256_SHA256_FIXED,
        key,
    );
    pk.verify(msg, sig).is_ok()
}

/// The public key a certificate declares, where its algorithm is the
/// supported one; any other identifier, and a certificate that does not
/// parse, is the explicit unsupported outcome.
pub open spec fn spec_load_public_key(der: Seq<u8>) -> Result<
    (Algorithm, Seq<u8>),
    VerificationError,
> {
    match x509_spki(der) {
        None => Err(VerificationError::UnsupportedAlgorithm),
        Some((alg, params, key)) => if spec_supported_alg(alg, params) {
            Ok((Algorithm::IdEcPublicKey(Prime::Prime256v1), key))
        } else {
            Err(VerificationError::UnsupportedAlgorithm)
        },
    }
}

/// Extracts and checks the public key of a signer certificate, exactly
/// as `spec_load_public_key` describes it.
pub fn load_public_key(cert_der: &[u8]) -> (r: Result<PublicKey, VerificationError>)
    ensures
        r matches Ok(pk) ==> spec_load_public_key(cert_der@) == Ok::<
            (Algorithm, Seq<u8>),
            VerificationError,
        >((pk.algorithm, pk.data@)),
        r matches Err(e) ==> spec_load_public_key(cert_der@) == Err::<
            (Algorithm, Seq<u8>),
            VerificationError,
        >(e),
{
    let (alg_oid, params, key) = match parse_cert_spki(cert_der) {
        Some(t) => t,
        None => {
            return Err(VerificationError::UnsupportedAlgorithm);
        },
    };
    let algorithm = match get_pk_sig_algorithm(alg_oid.as_slice(), &params) {
        Ok(a) => a,
        Err(e) => {
            return Err(e);
        },
    };
    Ok(PublicKey { algorithm, data: key })
}

/// The outcome of the cryptographic comparison over the reconstructed
/// signing bytes for an envelope, under a supported public key.
pub open spec fn spec_verify_sign1(env: SpecSign1, key: Seq<u8>) -> Result<(), VerificationError> {
    if p256_sha256_valid(key, spec_sig_structure(env.protected, env.payload), env.signature) {
        Ok(())
    } else {
        Err(VerificationError::SignatureInvalid)
    }
}

/// Verifies the envelope signature with an already extracted supported
/// public key, over the exact reconstructed signing bytes.
pub fn verify_signature(sign1: &Sign1, key: &PublicKey) -> (r: Result<(), VerificationError>)
    ensures
        r == spec_verify_sign1(sign1@, key.data@),
{
    let msg = sig_structure(sign1.protected.as_slice(), sign1.payload.as_slice());
    if p256_verify(key.data.as_slice(), msg.as_slice(), sign1.signature.as_slice()) {
        Ok(())
    } else {
        Err(VerificationError::SignatureInvalid)
    }
}

/// The verification outcome for an envelope against raw
/// subject-public-key-info values: an unsupported algorithm identifier
/// is reported as such, without any cryptographic comparison entering
/// the outcome; a supported one hands over to the signature check.
pub open spec fn spec_verify_spki(
    env: SpecSign1,
    alg: Seq<u8>,
    params: Option<Seq<u8>>,
    key: Seq<u8>,
) -> Result<(), VerificationError> {
    if spec_supported_alg(alg, params) {
        spec_verify_sign1(env, key)
    } else {
        Err(VerificationError::UnsupportedAlgorithm)
    }
}

/// Verifies the envelope signature against raw subject-public-key-info
/// values, exactly as `spec_verify_spki` describes it.
pub fn verify_with_spki(sign1: &Sign1, alg_oid: &[u8], params: &Option<Vec<u8>>, key: &[u8]) -> (r:
    Result<(), VerificationError>)
    ensures
        r == spec_verify_spki(sign1@, alg_oid@, vob_params(*params), key@),
{
    match get_pk_sig_algorithm(alg_oid, params) {
        Err(e) => Err(e),
        Ok(_) => {
            let msg = sig_structure(sign1.protected.as_slice(), sign1.payload.as_slice());
            if p256_verify(key, msg.as_slice(), sign1.signature.as_slice()) {
                Ok(())
            } else {
                Err(VerificationError::SignatureInvalid)
            }
        },
    }
}

/// Any other algorithm identifier is reported as unsupported whatever
/// the key and signature bytes hold: no cryptographic outcome enters
/// the result, and it is never silently treated as success.
pub proof fn lemma_unsupported_never_verifies(
    env: SpecSign1,
    alg: Seq<u8>,
    params: Option<Seq<u8>>,
    key: Seq<u8>,
)
    requires
        !spec_supported_alg(alg, params),
    ensures
        spec_verify_spki(env, alg, params, key) == Err::<(), VerificationError>(
            VerificationError::UnsupportedAlgorithm,
        ),
{
}

/// The verification outcome for an envelope against a signer
/// certificate: the signer's declared algorithm is inspected, and only
/// the supported combination reaches the cryptographic comparison.
pub open spec fn spec_verify(env: SpecSign1, cert_der: Seq<u8>) -> Result<(), VerificationError> {
    match spec_load_public_key(cert_der) {
        Err(e) => Err(e),
        Ok((alg, key)) => spec_verify_sign1(env, key),
    }
}

/// Verifies the envelope signature against a trust-list signer, exactly
/// as `spec_verify` describes it.
pub fn verify(sign1: &Sign1, signer: &Certificate) -> (r: Result<(), VerificationError>)
    ensures
        r == spec_verify(sign1@, signer.raw_data@),
{
    let key = match load_public_key(signer.raw_data.as_slice()) {
        Ok(k) => k,
        Err(e) => {
            return Err(e);
        },
    };
    verify_signature(sign1, &key)
}

} // verus!

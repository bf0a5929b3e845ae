//! Construction of the one fixed DER structure this system can write: an
//! ECDSA signature value, a sequence of two integers, from the raw
//! big-endian halves of a fixed-width signature.

use vstd::prelude::*;

use crate::cbor::push_all;
use crate::cert::{spec_oid_ec, spec_oid_p256, Algorithm};

verus! {

/// The object identifiers this system recognizes, by content bytes.
#[derive(Debug, Clone, Copy, PartialEq, Eq, Structural)]
pub enum ObjectIdentifier {
    /// The elliptic-curve public-key algorithm.
    IdEcPublicKey,
    /// The supported 256-bit named curve.
    Prime256v1,
}

impl ObjectIdentifier {
    /// Recognizes the content bytes of the two known object
    /// identifiers; any other bytes are unknown.
    pub fn load(bytes: &[u8]) -> (r: Option<ObjectIdentifier>)
        ensures
            spec_oid_ec(bytes@) ==> r == Some(ObjectIdentifier::IdEcPublicKey),
            spec_oid_p256(bytes@) ==> r == Some(ObjectIdentifier::Prime256v1),
            !spec_oid_ec(bytes@) && !spec_oid_p256(bytes@) ==> r is None,
    {
        if crate::cert::is_oid_ec(bytes) {
            Some(ObjectIdentifier::IdEcPublicKey)
        } else if crate::cert::is_oid_p256(bytes) {
            Some(ObjectIdentifier::Prime256v1)
        } else {
            None
        }
    }
}

/// A public key as this system carries it: the declared (and checked)
/// algorithm and the raw key bits.
#[derive(Debug, Clone, PartialEq, Eq)]
pub struct PublicKey {
    pub algorithm: Algorithm,
    pub data: Vec<u8>,
}

/// The bytes with their leading zero bytes removed.
pub open spec fn spec_strip_zeros(s: Seq<u8>) -> Seq<u8>
    decreases s.len(),
{
    if s.len() > 0 && s[0] == 0 {
        spec_strip_zeros(s.skip(1))
    } else {
        s
    }
}

/// Stripping leading zeros never lengthens the bytes.
pub proof fn lemma_strip_zeros_len(s: Seq<u8>)
    ensures
        spec_strip_zeros(s).len() <= s.len(),
    decreases s.len(),
{
    if s.len() > 0 && s[0] == 0 {
        lemma_strip_zeros_len(s.skip(1));
    }
}

/// The content octets of a DER integer holding the unsigned big-endian
/// value of `s`: leading zeros removed, a single zero byte for the
/// value zero, and one leading zero byte added where the top bit would
/// otherwise read as a sign.
pub open spec fn spec_der_int_content(s: Seq<u8>) -> Seq<u8> {
    let t = spec_strip_zeros(s);
    if t.len() == 0 {
        seq![0u8]
    } else if t[0] >= 128 {
        seq![0u8] + t
    } else {
        t
    }
}

/// The DER length octets for a content length below 65536: short form
/// below 128, else the long form with one or two length bytes.
pub open spec fn spec_der_len(n: nat) -> Seq<u8> {
    if n < 128 {
        seq![n as u8]
    } else if n < 256 {
        seq![0x81u8, n as u8]
    } else {
        seq![0x82u8, (n / 256) as u8, (n % 256) as u8]
    }
}

/// A whole DER integer item for the unsigned big-endian value of `s`.
pub open spec fn spec_der_int(s: Seq<u8>) -> Seq<u8> {
    seq![0x02u8] + spec_der_len(spec_der_int_content(s).len()) + spec_der_int_content(s)
}

/// The DER encoding of an ECDSA signature value: a sequence of the two
/// integers built from the signature halves.
pub open spec fn spec_ecdsa_sig_value(r: Seq<u8>, s: Seq<u8>) -> Seq<u8> {
    let body = spec_der_int(r) + spec_der_int(s);
    seq![0x30u8] + spec_der_len(body.len()) + body
}

/// Appends the DER length octets for `n`.
fn push_der_len(out: &mut Vec<u8>, n: usize)
    requires
        n < 65536,
    ensures
        final(out)@ == old(out)@ + spec_der_len(n as nat),
{
    if n < 128 {
        out.push(n as u8);
        proof {
            assert(out@ =~= old(out)@ + spec_der_len(n as nat));
        }
    } else if n < 256 {
        out.push(0x81);
        out.push(n as u8);
        proof {
            assert(out@ =~= old(out)@ + spec_der_len(n as nat));
        }
    } else {
        out.push(0x82);
        out.push((n / 256) as u8);
        out.push((n % 256) as u8);
        proof {
            assert(out@ =~= old(out)@ + spec_der_len(n as nat));
        }
    }
}

/// Appends one DER integer item for the unsigned big-endian value of
/// `v`.
fn push_der_int(out: &mut Vec<u8>, v: &[u8])
    requires
        v@.len() <= 16000,
    ensures
        final(out)@ == old(out)@ + spec_der_int(v@),
{
    let n = v.len();
    let mut i: usize = 0;
    proof {
        assert(v@.skip(0) =~= v@);
    }
    while i < n && v[i] == 0
        invariant
            i <= n,
            n == v@.len(),
            spec_strip_zeros(v@) == spec_strip_zeros(v@.skip(i as int)),
        decreases n - i,
    {
        proof {
            assert(v@.skip(i as int)[0] == v@[i as int]);
            assert(v@.skip(i as int).skip(1) =~= v@.skip(i as int + 1));
        }
        i = i + 1;
    }
    proof {
        if i < n {
            assert(v@.skip(i as int)[0] == v@[i as int]);
        }
        assert(spec_strip_zeros(v@) =~= v@.skip(i as int));
        lemma_strip_zeros_len(v@);
    }
    out.push(0x02);
    if i == n {
        out.push(1);
        out.push(0);
        proof {
            assert(spec_der_int_content(v@) =~= seq![0u8]);
            assert(spec_der_len(1) =~= seq![1u8]);
            assert(out@ =~= old(out)@ + spec_der_int(v@));
        }
    } else if v[i] >= 128 {
        let clen = n - i + 1;
        push_der_len(out, clen);
        out.push(0);
        push_all(out, vstd::slice::slice_subrange(v, i, n));
        proof {
            assert(spec_der_int_content(v@) =~= seq![0u8] + v@.skip(i as int));
            assert(out@ =~= old(out)@ + spec_der_int(v@));
        }
    } else {
        let clen = n - i;
        push_der_len(out, clen);
        push_all(out, vstd::slice::slice_subrange(v, i, n));
        proof {
            assert(spec_der_int_content(v@) =~= v@.skip(i as int));
            assert(out@ =~= old(out)@ + spec_der_int(v@));
        }
    }
}

/// An ECDSA signature value: the two raw big-endian halves of a
/// fixed-width signature, writable as one DER sequence of two integers.
#[derive(Debug, Clone)]
pub struct EcdsaSigValue {
    pub r: Vec<u8>,
    pub s: Vec<u8>,
}

impl EcdsaSigValue {
    /// Wraps the two raw signature halves.
    pub fn new(r: &[u8], s: &[u8]) -> (v: Self)
        ensures
            v.r@ == r@,
            v.s@ == s@,
    {
        EcdsaSigValue {
            r: crate::valuesets::copy_bytes(r),
            s: crate::valuesets::copy_bytes(s),
        }
    }

    /// Writes the signature value as one DER sequence of two integers,
    /// exactly as `spec_ecdsa_sig_value` describes it.
    pub fn encode(&self) -> (out: Vec<u8>)
        requires
            self.r@.len() <= 16000,
            self.s@.len() <= 16000,
        ensures
            out@ == spec_ecdsa_sig_value(self.r@, self.s@),
    {
        let mut body: Vec<u8> = Vec::new();
        push_der_int(&mut body, self.r.as_slice());
        push_der_int(&mut body, self.s.as_slice());
        proof {
            lemma_strip_zeros_len(self.r@);
            lemma_strip_zeros_len(self.s@);
            assert(body@ =~= spec_der_int(self.r@) + spec_der_int(self.s@));
        }
        let mut out: Vec<u8> = Vec::new();
        out.push(0x30);
        push_der_len(&mut out, body.len());
        push_all(&mut out, body.as_slice());
        proof {
            assert(out@ =~= spec_ecdsa_sig_value(self.r@, self.s@));
        }
        out
    }
}

} // verus!

//! The signed envelope: a four-element structure carrying a protected
//! header, an unprotected header map with the key identifier, the payload
//! and the signature, and the reconstruction of the exact byte sequence
//! that the signature covers.

use vstd::prelude::*;

use crate::cbor::{
    copy_range, parse_head, push_all, skip_value, spec_head, spec_info, spec_major, spec_skip,
};

verus! {

/// Errors of the envelope layer.
#[derive(Debug, Clone, Copy, PartialEq, Eq)]
pub enum CwtError {
    /// The bytes do not carry the expected four-element signed structure.
    MalformedEnvelope,
}

/// Splits an item head byte into its major type and its additional
/// information bits; this byte-level split itself cannot fail.
pub fn cbor_byte(input: u8) -> (r: Result<(u8, u8), CwtError>)
    ensures
        r == Ok::<(u8, u8), CwtError>((spec_major(input), spec_info(input))),
{
    Ok(crate::cbor::cbor_byte(input))
}

/// A parsed signed envelope: the raw protected-header byte string, the
/// key identifier, the payload bytes and the signature bytes. Immutable
/// once parsed.
#[derive(Debug, Clone, PartialEq, Eq)]
pub struct Sign1 {
    pub protected: Vec<u8>,
    pub kid: Vec<u8>,
    pub payload: Vec<u8>,
    pub signature: Vec<u8>,
}

/// The mathematical content of a parsed envelope.
pub struct SpecSign1 {
    pub protected: Seq<u8>,
    pub kid: Seq<u8>,
    pub payload: Seq<u8>,
    pub signature: Seq<u8>,
}

impl View for Sign1 {
    type V = SpecSign1;

    open spec fn view(&self) -> SpecSign1 {
        SpecSign1 {
            protected: self.protected@,
            kid: self.kid@,
            payload: self.payload@,
            signature: self.signature@,
        }
    }
}

/// The byte string item at `i`: its contained bytes and the position
/// just past them.
pub open spec fn spec_bstr(s: Seq<u8>, i: int) -> Option<(Seq<u8>, int)> {
    match spec_head(s, i) {
        None => None,
        Some((m, v, j)) => if m == 2 && j + v <= s.len() {
            Some((s.subrange(j, j + v), j + v))
        } else {
            None
        },
    }
}

/// Scans `n` entries of a header map from `i`, keeping the byte-string
/// value of the last entry whose label is the integer 4 (the key
/// identifier); an entry with that label and a value of any other shape
/// is malformed. Returns the identifier found, if any, and the position
/// just past the map.
pub open spec fn spec_kid_map(s: Seq<u8>, i: int, n: nat, acc: Option<Seq<u8>>) -> Option<
    (Option<Seq<u8>>, int),
>
    decreases s.len() - i, n,
{
    if n == 0 {
        Some((acc, i))
    } else {
        match spec_head(s, i) {
            None => None,
            Some((kmaj, kval, j)) => {
                if kmaj == 0 && kval == 4 {
                    match spec_bstr(s, j) {
                        None => None,
                        Some((kid, next)) => if i < next && next <= s.len() {
                            spec_kid_map(s, next, (n - 1) as nat, Some(kid))
                        } else {
                            None
                        },
                    }
                } else {
                    match spec_skip(s, i) {
                        None => None,
                        Some(k1) => match spec_skip(s, k1) {
                            None => None,
                            Some(k2) => if i < k2 && k2 <= s.len() {
                                spec_kid_map(s, k2, (n - 1) as nat, acc)
                            } else {
                                None
                            },
                        },
                    }
                }
            },
        }
    }
}

/// The key identifier carried by the protected header bytes: an empty
/// header carries none; otherwise the bytes must hold exactly one whole
/// header map. `None` means the protected header is malformed.
pub open spec fn spec_protected_kid(prot: Seq<u8>) -> Option<Option<Seq<u8>>> {
    if prot.len() == 0 {
        Some(None)
    } else {
        match spec_head(prot, 0) {
            None => None,
            Some((m, npairs, j)) => if m == 5 && 0 < j {
                match spec_kid_map(prot, j, npairs, None) {
                    None => None,
                    Some((kid, e)) => if e == prot.len() {
                        Some(kid)
                    } else {
                        None
                    },
                }
            } else {
                None
            },
        }
    }
}

/// The envelope carried by `s` from position `i`: an array of exactly
/// four elements - protected header byte string, unprotected header map,
/// payload byte string, signature byte string - consuming `s` to its
/// end. The key identifier is taken from the protected header where
/// present there, else from the unprotected header; an envelope with no
/// key identifier at all is malformed.
pub open spec fn spec_parse_sign1_body(s: Seq<u8>, i: int) -> Option<SpecSign1> {
    match spec_head(s, i) {
        None => None,
        Some((m, cnt, j)) => if m != 4 || cnt != 4 {
            None
        } else {
            match spec_bstr(s, j) {
                None => None,
                Some((prot, a)) => match spec_head(s, a) {
                    None => None,
                    Some((mm, npairs, b)) => if mm != 5 || a >= b {
                        None
                    } else {
                        match spec_kid_map(s, b, npairs, None) {
                            None => None,
                            Some((kid_u, c)) => match spec_bstr(s, c) {
                                None => None,
                                Some((payload, d)) => match spec_bstr(s, d) {
                                    None => None,
                                    Some((signature, e)) => if e != s.len() {
                                        None
                                    } else {
                                        match spec_protected_kid(prot) {
                                            None => None,
                                            Some(kid_p) => {
                                                let kid = if kid_p is Some {
                                                    kid_p
                                                } else {
                                                    kid_u
                                                };
                                                match kid {
                                                    None => None,
                                                    Some(k) => Some(
                                                        SpecSign1 {
                                                            protected: prot,
                                                            kid: k,
                                                            payload,
                                                            signature,
                                                        },
                                                    ),
                                                }
                                            },
                                        }
                                    },
                                },
                            },
                        }
                    },
                },
            }
        },
    }
}

/// The envelope carried by `s`, allowing one optional leading tag with
/// value 18 (the signed-structure tag) around the array.
pub open spec fn spec_parse_sign1(s: Seq<u8>) -> Option<SpecSign1> {
    match spec_head(s, 0) {
        None => None,
        Some((m, v, j)) => if m == 6 {
            if v == 18 {
                spec_parse_sign1_body(s, j)
            } else {
                None
            }
        } else {
            spec_parse_sign1_body(s, 0)
        },
    }
}

/// Scans `n` header-map entries for the key identifier label, exactly as
/// `spec_kid_map` describes it.
fn parse_kid_map(s: &[u8], i: usize, n: u64) -> (r: Option<(Option<Vec<u8>>, usize)>)
    requires
        i <= s@.len(),
    ensures
        r matches Some(p) ==> spec_kid_map(s@, i as int, n as nat, None) == Some(
            (
                match p.0 {
                    Some(k) => Some(k@),
                    None => None,
                },
                p.1 as int,
            ),
        ) && i <= p.1 <= s@.len(),
        r is None ==> spec_kid_map(s@, i as int, n as nat, None) is None,
{
    let mut cur = i;
    let mut c: u64 = 0;
    let mut acc: Option<Vec<u8>> = None;
    while c < n
        invariant
            i <= cur <= s@.len(),
            c <= n,
            spec_kid_map(s@, i as int, n as nat, None) == spec_kid_map(
                s@,
                cur as int,
                (n - c) as nat,
                match acc {
                    Some(k) => Some(k@),
                    None => None,
                },
            ),
        decreases n - c,
    {
        let (kmaj, kval, j) = match parse_head(s, cur) {
            Some(h) => h,
            None => {
                return None;
            },
        };
        if kmaj == 0 && kval == 4 {
            let (vmaj, vval, vj) = match parse_head(s, j) {
                Some(h) => h,
                None => {
                    return None;
                },
            };
            if vmaj == 2 && vval <= (s.len() - vj) as u64 {
                let next = vj + (vval as usize);
                acc = Some(copy_range(s, vj, next));
                cur = next;
                c = c + 1;
            } else {
                proof {
                    assert(spec_bstr(s@, j as int) is None);
                }
                return None;
            }
        } else {
            let k1 = match skip_value(s, cur) {
                Some(k) => k,
                None => {
                    return None;
                },
            };
            let k2 = match skip_value(s, k1) {
                Some(k) => k,
                None => {
                    return None;
                },
            };
            cur = k2;
            c = c + 1;
        }
    }
    Some((acc, cur))
}

/// Reads the byte string item at `i` and copies out its contents.
fn parse_bstr(s: &[u8], i: usize) -> (r: Option<(Vec<u8>, usize)>)
    ensures
        r matches Some(p) ==> spec_bstr(s@, i as int) == Some((p.0@, p.1 as int)) && i < p.1
            <= s@.len(),
        r is None ==> spec_bstr(s@, i as int) is None,
{
    let (m, v, j) = match parse_head(s, i) {
        Some(h) => h,
        None => {
            return None;
        },
    };
    if m == 2 && v <= (s.len() - j) as u64 {
        let end = j + (v as usize);
        Some((copy_range(s, j, end), end))
    } else {
        None
    }
}

/// Parses the decompressed bytes into a signed envelope, exactly as
/// `spec_parse_sign1` describes it; any other shape is rejected as a
/// malformed envelope.
pub fn parse_sign1(s: &[u8]) -> (r: Result<Sign1, CwtError>)
    ensures
        r matches Ok(v) ==> spec_parse_sign1(s@) == Some(v@),
        r matches Err(e) ==> spec_parse_sign1(s@) is None && e == CwtError::MalformedEnvelope,
{
    let (m0, v0, j0) = match parse_head(s, 0) {
        Some(h) => h,
        None => {
            return Err(CwtError::MalformedEnvelope);
        },
    };
    let body: usize = if m0 == 6 {
        if v0 == 18 {
            j0
        } else {
            return Err(CwtError::MalformedEnvelope);
        }
    } else {
        0
    };
    let (m, cnt, j) = match parse_head(s, body) {
        Some(h) => h,
        None => {
            return Err(CwtError::MalformedEnvelope);
        },
    };
    if m != 4 || cnt != 4 {
        return Err(CwtError::MalformedEnvelope);
    }
    let (protected, a) = match parse_bstr(s, j) {
        Some(p) => p,
        None => {
            return Err(CwtError::MalformedEnvelope);
        },
    };
    let (mm, npairs, b) = match parse_head(s, a) {
        Some(h) => h,
        None => {
            return Err(CwtError::MalformedEnvelope);
        },
    };
    if mm != 5 {
        return Err(CwtError::MalformedEnvelope);
    }
    let (kid_u, c) = match parse_kid_map(s, b, npairs) {
        Some(p) => p,
        None => {
            return Err(CwtError::MalformedEnvelope);
        },
    };
    let (payload, d) = match parse_bstr(s, c) {
        Some(p) => p,
        None => {
            return Err(CwtError::MalformedEnvelope);
        },
    };
    let (signature, e) = match parse_bstr(s, d) {
        Some(p) => p,
        None => {
            return Err(CwtError::MalformedEnvelope);
        },
    };
    if e != s.len() {
        return Err(CwtError::MalformedEnvelope);
    }
    let kid_p: Option<Vec<u8>> = if protected.len() == 0 {
        None
    } else {
        let (pm, pn, pj) = match parse_head(protected.as_slice(), 0) {
            Some(h) => h,
            None => {
                return Err(CwtError::MalformedEnvelope);
            },
        };
        if pm != 5 {
            return Err(CwtError::MalformedEnvelope);
        }
        let (pkid, pe) = match parse_kid_map(protected.as_slice(), pj, pn) {
            Some(p) => p,
            None => {
                return Err(CwtError::MalformedEnvelope);
            },
        };
        if pe != protected.len() {
            return Err(CwtError::MalformedEnvelope);
        }
        pkid
    };
    let kid = match kid_p {
        Some(k) => k,
        None => match kid_u {
            Some(k) => k,
            None => {
                return Err(CwtError::MalformedEnvelope);
            },
        },
    };
    Ok(Sign1 { protected, kid, payload, signature })
}

/// The shortest-form head bytes for a major type and an argument value.
pub open spec fn spec_head_bytes(major: u8, n: nat) -> Seq<u8> {
    if n < 24 {
        seq![(major * 32 + n) as u8]
    } else if n < 256 {
        seq![(major * 32 + 24) as u8, n as u8]
    } else if n < 65536 {
        seq![(major * 32 + 25) as u8, (n / 256) as u8, (n % 256) as u8]
    } else if n < 4294967296 {
        seq![
            (major * 32 + 26) as u8,
            (n / 16777216) as u8,
            ((n / 65536) % 256) as u8,
            ((n / 256) % 256) as u8,
            (n % 256) as u8,
        ]
    } else {
        seq![
            (major * 32 + 27) as u8,
            ((n / 0x100000000000000) % 256) as u8,
            ((n / 0x1000000000000) % 256) as u8,
            ((n / 0x10000000000) % 256) as u8,
            ((n / 0x100000000) % 256) as u8,
            ((n / 0x1000000) % 256) as u8,
            ((n / 0x10000) % 256) as u8,
            ((n / 0x100) % 256) as u8,
            (n % 256) as u8,
        ]
    }
}

/// Appends the shortest-form head for a byte-string item of length `n`.
fn push_bstr_head(out: &mut Vec<u8>, n: usize)
    ensures
        final(out)@ == old(out)@ + spec_head_bytes(2, n as nat),
{
    if n < 24 {
        out.push(64 + (n as u8));
        proof {
            assert(out@ =~= old(out)@ + spec_head_bytes(2, n as nat));
        }
    } else if n < 256 {
        out.push(88);
        out.push(n as u8);
        proof {
            assert(out@ =~= old(out)@ + spec_head_bytes(2, n as nat));
        }
    } else if n < 65536 {
        out.push(89);
        out.push((n / 256) as u8);
        out.push((n % 256) as u8);
        proof {
            assert(out@ =~= old(out)@ + spec_head_bytes(2, n as nat));
        }
    } else if (n as u64) < 4294967296 {
        out.push(90);
        out.push((n / 16777216) as u8);
        out.push(((n / 65536) % 256) as u8);
        out.push(((n / 256) % 256) as u8);
        out.push((n % 256) as u8);
        proof {
            assert(out@ =~= old(out)@ + spec_head_bytes(2, n as nat));
        }
    } else {
        let w = n as u64;
        out.push(91);
        out.push((w / 0x100000000000000) as u8);
        out.push(((w / 0x1000000000000) % 256) as u8);
        out.push(((w / 0x10000000000) % 256) as u8);
        out.push(((w / 0x100000000) % 256) as u8);
        out.push(((w / 0x1000000) % 256) as u8);
        out.push(((w / 0x10000) % 256) as u8);
        out.push(((w / 0x100) % 256) as u8);
        out.push((w % 256) as u8);
        proof {
            assert((w / 0x100000000000000) % 256 == w / 0x100000000000000);
            assert(out@ =~= old(out)@ + spec_head_bytes(2, n as nat));
        }
    }
}

/// The exact byte sequence that the envelope signature covers: an array
/// of four elements - the context text string, the protected header
/// bytes, an empty external-data byte string, and the payload bytes.
pub open spec fn spec_sig_structure(prot: Seq<u8>, payload: Seq<u8>) -> Seq<u8> {
    seq![0x84u8, 0x6au8, 0x53u8, 0x69u8, 0x67u8, 0x6eu8, 0x61u8, 0x74u8, 0x75u8, 0x72u8, 0x65u8, 0x31u8]
        + spec_head_bytes(2, prot.len()) + prot + seq![0x40u8] + spec_head_bytes(
        2,
        payload.len(),
    ) + payload
}

/// Reconstructs the byte sequence that was originally signed, from the
/// envelope's protected header bytes and payload bytes.
pub fn sig_structure(protected: &[u8], payload: &[u8]) -> (r: Vec<u8>)
    ensures
        r@ == spec_sig_structure(protected@, payload@),
{
    let mut out: Vec<u8> = Vec::new();
    out.push(0x84);
    out.push(0x6a);
    out.push(0x53);
    out.push(0x69);
    out.push(0x67);
    out.push(0x6e);
    out.push(0x61);
    out.push(0x74);
    out.push(0x75);
    out.push(0x72);
    out.push(0x65);
    out.push(0x31);
    proof {
        assert(out@ =~= seq![
            0x84u8,
            0x6au8,
            0x53u8,
            0x69u8,
            0x67u8,
            0x6eu8,
            0x61u8,
            0x74u8,
            0x75u8,
            0x72u8,
            0x65u8,
            0x31u8,
        ]);
    }
    push_bstr_head(&mut out, protected.len());
    push_all(&mut out, protected);
    out.push(0x40);
    proof {
        assert(out@ =~= seq![
            0x84u8,
            0x6au8,
            0x53u8,
            0x69u8,
            0x67u8,
            0x6eu8,
            0x61u8,
            0x74u8,
            0x75u8,
            0x72u8,
            0x65u8,
            0x31u8,
        ] + spec_head_bytes(2, protected@.len()) + protected@ + seq![0x40u8]);
    }
    push_bstr_head(&mut out, payload.len());
    push_all(&mut out, payload);
    proof {
        assert(out@ =~= spec_sig_structure(protected@, payload@));
    }
    out
}

} // verus!

//! The restricted-alphabet binary codec: 45 legal symbols, three symbols
//! per little-endian 16-bit value, two output bytes per group.

use vstd::prelude::*;
use vstd::arithmetic::div_mod::{
    lemma_div_denominator, lemma_div_pos_is_pos, lemma_fundamental_div_mod,
    lemma_fundamental_div_mod_converse, lemma_mod_division_less_than_divisor,
};

verus! {

/// Errors of the restricted-alphabet decoder.
#[derive(Debug, Clone, Copy, PartialEq, Eq)]
pub enum Base45Error {
    /// A character outside the 45-symbol alphabet, carrying the offending byte.
    InvalidChar(u8),
    /// A symbol group whose combined value does not fit in 16 bits, carrying that value.
    InvalidTriple(u32),
    /// An input whose length leaves a trailing group of 1 or 2 symbols.
    TruncatedInput,
}

/// The integer value of one alphabet symbol: digits are 0-9, uppercase
/// letters are 10-35, and a fixed punctuation set fills 36-44. Any other
/// byte is outside the alphabet.
pub open spec fn spec_cval(c: u8) -> Option<u32> {
    if 48 <= c && c <= 57 {
        Some((c - 48) as u32)
    } else if 65 <= c && c <= 90 {
        Some((c - 55) as u32)
    } else if c == 32 {
        Some(36u32)
    } else if c == 36 {
        Some(37u32)
    } else if c == 37 {
        Some(38u32)
    } else if c == 42 {
        Some(39u32)
    } else if c == 43 {
        Some(40u32)
    } else if c == 45 {
        Some(41u32)
    } else if c == 46 {
        Some(42u32)
    } else if c == 47 {
        Some(43u32)
    } else if c == 58 {
        Some(44u32)
    } else {
        None
    }
}

/// Maps one symbol to its value 0-44, or reports it as outside the alphabet.
pub fn base45_cval(input: u8) -> (r: Result<u32, Base45Error>)
    ensures
        r == (match spec_cval(input) {
            Some(v) => Ok::<u32, Base45Error>(v),
            None => Err::<u32, Base45Error>(Base45Error::InvalidChar(input)),
        }),
        r matches Ok(v) ==> v < 45,
{
    if 48 <= input && input <= 57 {
        Ok((input - 48) as u32)
    } else if 65 <= input && input <= 90 {
        Ok((input - 65) as u32 + 10)
    } else if input == 32 {
        Ok(36)
    } else if input == 36 {
        Ok(37)
    } else if input == 37 {
        Ok(38)
    } else if input == 42 {
        Ok(39)
    } else if input == 43 {
        Ok(40)
    } else if input == 45 {
        Ok(41)
    } else if input == 46 {
        Ok(42)
    } else if input == 47 {
        Ok(43)
    } else if input == 58 {
        Ok(44)
    } else {
        Err(Base45Error::InvalidChar(input))
    }
}

/// The decoding of one 3-symbol group (c, d, e): the combined value
/// v_c + 45*v_d + 2025*v_e must fit in 16 bits; the result is its
/// little-endian byte pair. The first symbol outside the alphabet is
/// reported; an oversized value is reported with that value.
pub open spec fn spec_cdec(c: u8, d: u8, e: u8) -> Result<(u8, u8), Base45Error> {
    match spec_cval(c) {
        None => Err(Base45Error::InvalidChar(c)),
        Some(vc) => match spec_cval(d) {
            None => Err(Base45Error::InvalidChar(d)),
            Some(vd) => match spec_cval(e) {
                None => Err(Base45Error::InvalidChar(e)),
                Some(ve) => {
                    let sum = vc + 45 * vd + 2025 * ve;
                    if sum <= 0xffff {
                        Ok((((sum % 256) as u8), ((sum / 256) as u8)))
                    } else {
                        Err(Base45Error::InvalidTriple(sum as u32))
                    }
                },
            },
        },
    }
}

/// Decodes one 3-symbol group into its little-endian byte pair.
pub fn base45_cdec(c: u8, d: u8, e: u8) -> (r: Result<(u8, u8), Base45Error>)
    ensures
        r == spec_cdec(c, d, e),
{
    let vc = match base45_cval(c) {
        Ok(v) => v,
        Err(err) => {
            return Err(err);
        },
    };
    let vd = match base45_cval(d) {
        Ok(v) => v,
        Err(err) => {
            return Err(err);
        },
    };
    let ve = match base45_cval(e) {
        Ok(v) => v,
        Err(err) => {
            return Err(err);
        },
    };
    let sum: u32 = vc + 45 * vd + 2025 * ve;
    if sum <= 0xffff {
        Ok((((sum % 256) as u8), ((sum / 256) as u8)))
    } else {
        Err(Base45Error::InvalidTriple(sum))
    }
}

/// The decoding of a whole symbol string: 3-symbol groups in order, each
/// contributing two bytes; a trailing group of 1 or 2 symbols fails.
pub open spec fn spec_decode(s: Seq<u8>) -> Result<Seq<u8>, Base45Error>
    decreases s.len(),
{
    if s.len() == 0 {
        Ok(Seq::empty())
    } else if s.len() < 3 {
        Err(Base45Error::TruncatedInput)
    } else {
        match spec_cdec(s[0], s[1], s[2]) {
            Ok(p) => match spec_decode(s.skip(3)) {
                Ok(rest) => Ok(seq![p.0, p.1] + rest),
                Err(err) => Err(err),
            },
            Err(err) => Err(err),
        }
    }
}

/// Decodes a restricted-alphabet symbol string into raw bytes.
pub fn base45_decode(input: &[u8]) -> (r: Result<Vec<u8>, Base45Error>)
    ensures
        r matches Ok(v) ==> spec_decode(input@) == Ok::<Seq<u8>, Base45Error>(v@),
        r matches Err(e) ==> spec_decode(input@) == Err::<Seq<u8>, Base45Error>(e),
{
    let n = input.len();
    let mut out: Vec<u8> = Vec::new();
    let mut i: usize = 0;
    proof {
        assert(input@.skip(0) =~= input@);
        if let Ok(rest) = spec_decode(input@) {
            assert(Seq::<u8>::empty() + rest =~= rest);
        }
    }
    while n - i >= 3
        invariant
            i % 3 == 0,
            i <= n,
            n == input@.len(),
            out@.len() == 2 * i / 3,
            spec_decode(input@) == (match spec_decode(input@.skip(i as int)) {
                Ok(rest) => Ok::<Seq<u8>, Base45Error>(out@ + rest),
                Err(err) => Err::<Seq<u8>, Base45Error>(err),
            }),
        decreases n - i,
    {
        proof {
            assert(input@.skip(i as int).len() >= 3);
            assert(input@.skip(i as int)[0] == input@[i as int]);
            assert(input@.skip(i as int)[1] == input@[i as int + 1]);
            assert(input@.skip(i as int)[2] == input@[i as int + 2]);
            assert(input@.skip(i as int).skip(3) =~= input@.skip(i as int + 3));
        }
        match base45_cdec(input[i], input[i + 1], input[i + 2]) {
            Ok(p) => {
                let ghost old_out = out@;
                out.push(p.0);
                out.push(p.1);
                proof {
                    assert(out@ =~= old_out + seq![p.0, p.1]);
                    if let Ok(rest) = spec_decode(input@.skip(i as int + 3)) {
                        assert(old_out + (seq![p.0, p.1] + rest) =~= out@ + rest);
                    }
                }
            },
            Err(err) => {
                return Err(err);
            },
        }
        i = i + 3;
    }
    if i < n {
        proof {
            assert(input@.skip(i as int).len() < 3);
            assert(input@.skip(i as int).len() > 0);
        }
        return Err(Base45Error::TruncatedInput);
    }
    proof {
        assert(input@.skip(i as int).len() == 0);
        assert(spec_decode(input@.skip(i as int)) == Ok::<Seq<u8>, Base45Error>(Seq::empty()));
        assert(out@ + Seq::<u8>::empty() =~= out@);
    }
    Ok(out)
}

/// The alphabet symbol for a value 0-44: the inverse of `spec_cval`.
pub open spec fn spec_cchar(v: u32) -> u8 {
    if v < 10 {
        (48 + v) as u8
    } else if v < 36 {
        (55 + v) as u8
    } else if v == 36 {
        32u8
    } else if v == 37 {
        36u8
    } else if v == 38 {
        37u8
    } else if v == 39 {
        42u8
    } else if v == 40 {
        43u8
    } else if v == 41 {
        45u8
    } else if v == 42 {
        46u8
    } else if v == 43 {
        47u8
    } else {
        58u8
    }
}

/// The encoding of one byte pair taken as the little-endian 16-bit value
/// x + 256*y: three symbols carrying the value in base 45, low digit first.
pub open spec fn spec_encode_pair(x: u8, y: u8) -> Seq<u8> {
    let sum = x + 256 * y;
    seq![
        spec_cchar((sum % 45) as u32),
        spec_cchar(((sum / 45) % 45) as u32),
        spec_cchar((sum / 2025) as u32),
    ]
}

/// The encoding of an even-length byte string, pair by pair.
pub open spec fn spec_encode(s: Seq<u8>) -> Seq<u8>
    decreases s.len(),
{
    if s.len() < 2 {
        Seq::empty()
    } else {
        spec_encode_pair(s[0], s[1]) + spec_encode(s.skip(2))
    }
}

/// Encodes an even-length byte string into the restricted alphabet.
pub fn base45_encode(input: &[u8]) -> (r: Vec<u8>)
    requires
        input@.len() % 2 == 0,
    ensures
        r@ == spec_encode(input@),
{
    let n = input.len();
    let mut out: Vec<u8> = Vec::new();
    let mut i: usize = 0;
    proof {
        assert(input@.skip(0) =~= input@);
        assert(Seq::<u8>::empty() + spec_encode(input@) =~= spec_encode(input@));
    }
    while n - i >= 2
        invariant
            i % 2 == 0,
            i <= n,
            n == input@.len(),
            n % 2 == 0,
            out@ + spec_encode(input@.skip(i as int)) == spec_encode(input@),
        decreases n - i,
    {
        proof {
            assert(input@.skip(i as int)[0] == input@[i as int]);
            assert(input@.skip(i as int)[1] == input@[i as int + 1]);
            assert(input@.skip(i as int).skip(2) =~= input@.skip(i as int + 2));
        }
        let x = input[i];
        let y = input[i + 1];
        let sum: u32 = (x as u32) + 256 * (y as u32);
        let ghost old_out = out@;
        out.push(base45_cval_inv((sum % 45) as u8));
        out.push(base45_cval_inv(((sum / 45) % 45) as u8));
        out.push(base45_cval_inv((sum / 2025) as u8));
        proof {
            assert(out@ =~= old_out + spec_encode_pair(x, y));
            assert(out@ + spec_encode(input@.skip(i as int + 2)) =~= old_out + (spec_encode_pair(
                x,
                y,
            ) + spec_encode(input@.skip(i as int + 2))));
        }
        i = i + 2;
    }
    proof {
        assert(i == n);
        assert(spec_encode(input@.skip(i as int)) =~= Seq::<u8>::empty());
        assert(out@ =~= out@ + Seq::<u8>::empty());
    }
    out
}

/// Maps a value 0-44 back to its alphabet symbol.
pub fn base45_cval_inv(v: u8) -> (r: u8)
    requires
        v < 45,
    ensures
        r == spec_cchar(v as u32),
{
    if v < 10 {
        48 + v
    } else if v < 36 {
        55 + v
    } else if v == 36 {
        32
    } else if v == 37 {
        36
    } else if v == 38 {
        37
    } else if v == 39 {
        42
    } else if v == 40 {
        43
    } else if v == 41 {
        45
    } else if v == 42 {
        46
    } else if v == 43 {
        47
    } else {
        58
    }
}

/// The symbol of a value and its value round-trip: for v < 45 the
/// alphabet maps bijectively.
pub proof fn lemma_cval_cchar(v: u32)
    requires
        v < 45,
    ensures
        spec_cval(spec_cchar(v)) == Some(v),
{
}

/// For a single valid 3-symbol group whose combined value fits in 16
/// bits, decoding yields exactly the little-endian byte pair of
/// v_c + 45*v_d + 2025*v_e.
pub proof fn lemma_decode_triple(c: u8, d: u8, e: u8)
    requires
        spec_cval(c) is Some,
        spec_cval(d) is Some,
        spec_cval(e) is Some,
        spec_cval(c).unwrap() + 45 * spec_cval(d).unwrap() + 2025 * spec_cval(e).unwrap()
            <= 0xffff,
    ensures
        ({
            let sum = spec_cval(c).unwrap() + 45 * spec_cval(d).unwrap() + 2025 * spec_cval(
                e,
            ).unwrap();
            spec_decode(seq![c, d, e]) == Ok::<Seq<u8>, Base45Error>(
                seq![(sum % 256) as u8, (sum / 256) as u8],
            )
        }),
{
    reveal_with_fuel(spec_decode, 2);
    let s = seq![c, d, e];
    assert(s.skip(3) =~= Seq::<u8>::empty());
    let sum = spec_cval(c).unwrap() + 45 * spec_cval(d).unwrap() + 2025 * spec_cval(e).unwrap();
    assert(spec_cdec(c, d, e) == Ok::<(u8, u8), Base45Error>(
        ((sum % 256) as u8, (sum / 256) as u8),
    ));
    assert(seq![(sum % 256) as u8, (sum / 256) as u8] + Seq::<u8>::empty() =~= seq![
        (sum % 256) as u8,
        (sum / 256) as u8,
    ]);
}

/// Decoding inverts encoding on one pair: the three symbols produced for
/// (x, y) decode back to exactly (x, y).
proof fn lemma_cdec_pair(x: u8, y: u8)
    ensures
        spec_cdec(
            spec_encode_pair(x, y)[0],
            spec_encode_pair(x, y)[1],
            spec_encode_pair(x, y)[2],
        ) == Ok::<(u8, u8), Base45Error>((x, y)),
{
    let sum = (x + 256 * y) as int;
    assert(0 <= sum <= 0xffff);
    let v0 = sum % 45;
    let v1 = (sum / 45) % 45;
    let v2 = sum / 2025;
    lemma_mod_division_less_than_divisor(sum, 45);
    lemma_div_pos_is_pos(sum, 45);
    lemma_mod_division_less_than_divisor(sum / 45, 45);
    lemma_div_pos_is_pos(sum, 2025);
    lemma_fundamental_div_mod(sum, 45);
    lemma_fundamental_div_mod(sum / 45, 45);
    lemma_div_denominator(sum, 45, 45);
    assert(sum / 45 / 45 == sum / 2025);
    assert(sum == 2025 * v2 + 45 * v1 + v0);
    assert(v2 < 45);
    lemma_cval_cchar(v0 as u32);
    lemma_cval_cchar(v1 as u32);
    lemma_cval_cchar(v2 as u32);
    lemma_fundamental_div_mod_converse(sum, 256, y as int, x as int);
    assert(sum % 256 == x && sum / 256 == y);
}

/// Round trip: decoding the encoding of any even-length byte string
/// returns that byte string.
pub proof fn lemma_base45_round_trip(s: Seq<u8>)
    requires
        s.len() % 2 == 0,
    ensures
        spec_decode(spec_encode(s)) == Ok::<Seq<u8>, Base45Error>(s),
    decreases s.len(),
{
    if s.len() == 0 {
        assert(spec_encode(s) =~= Seq::<u8>::empty());
        assert(spec_decode(spec_encode(s)) == Ok::<Seq<u8>, Base45Error>(Seq::empty()));
        assert(s =~= Seq::<u8>::empty());
    } else {
        let rest = s.skip(2);
        assert(rest.len() % 2 == 0);
        lemma_base45_round_trip(rest);
        lemma_cdec_pair(s[0], s[1]);
        let enc = spec_encode(s);
        let pair_enc = spec_encode_pair(s[0], s[1]);
        assert(enc == pair_enc + spec_encode(rest));
        assert(enc.len() >= 3);
        assert(enc[0] == pair_enc[0] && enc[1] == pair_enc[1] && enc[2] == pair_enc[2]);
        assert(enc.skip(3) =~= spec_encode(rest));
        assert(seq![s[0], s[1]] + rest =~= s);
    }
}

} // verus!

//! The compact keyed-map binary encoding underneath the envelope and the
//! payload: item heads (major type and argument), and skipping over whole
//! items of unrecognized shape.

use vstd::prelude::*;

verus! {

/// The major type of an item head byte: its top three bits.
pub open spec fn spec_major(b: u8) -> u8 {
    (b / 32) as u8
}

/// The additional information of an item head byte: its low five bits.
pub open spec fn spec_info(b: u8) -> u8 {
    (b % 32) as u8
}

/// The big-endian value of the `k` bytes starting at `i`.
pub open spec fn spec_be_val(s: Seq<u8>, i: int, k: nat) -> nat
    decreases k,
{
    if k == 0 {
        0
    } else {
        (spec_be_val(s, i, (k - 1) as nat) * 256 + s[i + k - 1]) as nat
    }
}

/// The head of the item at `i`: its major type, its argument value, and
/// the position just past the head. The argument is carried in the low
/// five bits when below 24, else in the following 1, 2, 4 or 8 bytes,
/// big-endian. Indefinite lengths and reserved encodings have no head.
pub open spec fn spec_head(s: Seq<u8>, i: int) -> Option<(u8, nat, int)> {
    if 0 <= i < s.len() {
        let major = spec_major(s[i]);
        let info = spec_info(s[i]);
        if info < 24 {
            Some((major, info as nat, i + 1))
        } else if info == 24 && i + 2 <= s.len() {
            Some((major, s[i + 1] as nat, i + 2))
        } else if info == 25 && i + 3 <= s.len() {
            Some((major, spec_be_val(s, i + 1, 2), i + 3))
        } else if info == 26 && i + 5 <= s.len() {
            Some((major, spec_be_val(s, i + 1, 4), i + 5))
        } else if info == 27 && i + 9 <= s.len() {
            Some((major, spec_be_val(s, i + 1, 8), i + 9))
        } else {
            None
        }
    } else {
        None
    }
}

/// Splits an item head byte into its major type and its additional
/// information bits.
pub fn cbor_byte(input: u8) -> (r: (u8, u8))
    ensures
        r.0 == spec_major(input),
        r.1 == spec_info(input),
{
    let major = input >> 5;
    let info = input & 0b11111;
    proof {
        assert(input >> 5 == input / 32) by (bit_vector);
        assert(input & 0b11111 == input % 32) by (bit_vector);
    }
    (major, info)
}

/// Reads the item head at `i`, exactly as `spec_head` describes it.
pub fn parse_head(s: &[u8], i: usize) -> (r: Option<(u8, u64, usize)>)
    ensures
        r matches Some(h) ==> spec_head(s@, i as int) == Some(
            (h.0, h.1 as nat, h.2 as int),
        ) && i < h.2 <= s@.len(),
        r is None ==> spec_head(s@, i as int) is None,
{
    let n = s.len();
    if i >= n {
        return None;
    }
    let (major, info) = cbor_byte(s[i]);
    if info < 24 {
        Some((major, info as u64, i + 1))
    } else if info == 24 && n - i >= 2 {
        Some((major, s[i + 1] as u64, i + 2))
    } else if info == 25 && n - i >= 3 {
        let v = (s[i + 1] as u64) * 256 + (s[i + 2] as u64);
        proof {
            reveal_with_fuel(spec_be_val, 3);
        }
        Some((major, v, i + 3))
    } else if info == 26 && n - i >= 5 {
        let v = (((s[i + 1] as u64) * 256 + (s[i + 2] as u64)) * 256 + (s[i + 3] as u64)) * 256 + (
        s[i + 4] as u64);
        proof {
            reveal_with_fuel(spec_be_val, 5);
        }
        Some((major, v, i + 5))
    } else if info == 27 && n - i >= 9 {
        let mut v: u64 = s[i + 1] as u64;
        v = v * 256 + (s[i + 2] as u64);
        v = v * 256 + (s[i + 3] as u64);
        v = v * 256 + (s[i + 4] as u64);
        proof {
            reveal_with_fuel(spec_be_val, 5);
            assert(v == spec_be_val(s@, i + 1, 4));
            assert(v < 0x100000000);
        }
        v = v * 256 + (s[i + 5] as u64);
        v = v * 256 + (s[i + 6] as u64);
        v = v * 256 + (s[i + 7] as u64);
        v = v * 256 + (s[i + 8] as u64);
        proof {
            reveal_with_fuel(spec_be_val, 9);
        }
        Some((major, v, i + 9))
    } else {
        None
    }
}

/// The position just past the whole item at `i`: past its head, its
/// contained bytes for strings, and all its nested items for arrays,
/// maps and tags. `None` where no well-formed item starts at `i`.
pub open spec fn spec_skip(s: Seq<u8>, i: int) -> Option<int>
    decreases s.len() - i, 0nat, 0nat,
{
    match spec_head(s, i) {
        None => None,
        Some((major, val, j)) => {
            if major == 0 || major == 1 || major == 7 {
                Some(j)
            } else if major == 2 || major == 3 {
                if j + val <= s.len() {
                    Some(j + val)
                } else {
                    None
                }
            } else if major == 4 {
                if i < j {
                    spec_skip_items(s, j, val)
                } else {
                    None
                }
            } else if major == 5 {
                if i < j {
                    spec_skip_items(s, j, 2 * val)
                } else {
                    None
                }
            } else {
                if i < j {
                    spec_skip(s, j)
                } else {
                    None
                }
            }
        },
    }
}

/// The position just past `n` consecutive whole items starting at `i`.
pub open spec fn spec_skip_items(s: Seq<u8>, i: int, n: nat) -> Option<int>
    decreases s.len() - i, n, 1nat,
{
    if n == 0 {
        Some(i)
    } else {
        match spec_skip(s, i) {
            None => None,
            Some(j) => if i < j && j <= s.len() {
                spec_skip_items(s, j, (n - 1) as nat)
            } else {
                None
            },
        }
    }
}

/// A whole item occupies at least one byte and ends within the input.
pub proof fn lemma_skip_bounds(s: Seq<u8>, i: int)
    ensures
        spec_skip(s, i) matches Some(j) ==> i < j <= s.len(),
    decreases s.len() - i, 0nat, 0nat,
{
    if let Some((major, val, j)) = spec_head(s, i) {
        if major == 4 {
            if i < j {
                lemma_skip_items_bounds(s, j, val);
            }
        } else if major == 5 {
            if i < j {
                lemma_skip_items_bounds(s, j, 2 * val);
            }
        } else if major == 6 {
            if i < j {
                lemma_skip_bounds(s, j);
            }
        }
    }
}

/// `n` consecutive whole items occupy at least `n` bytes and end within
/// the input.
pub proof fn lemma_skip_items_bounds(s: Seq<u8>, i: int, n: nat)
    ensures
        spec_skip_items(s, i, n) matches Some(k) ==> i + n <= k && (n > 0 ==> k <= s.len()),
    decreases s.len() - i, n, 1nat,
{
    if n > 0 {
        lemma_skip_bounds(s, i);
        if let Some(j) = spec_skip(s, i) {
            if i < j && j <= s.len() {
                lemma_skip_items_bounds(s, j, (n - 1) as nat);
            }
        }
    }
}

/// Skips the whole item at `i`, exactly as `spec_skip` describes it.
pub fn skip_value(s: &[u8], i: usize) -> (r: Option<usize>)
    ensures
        r matches Some(k) ==> spec_skip(s@, i as int) == Some(k as int) && i < k <= s@.len(),
        r is None ==> spec_skip(s@, i as int) is None,
    decreases s@.len() - i, 0nat, 0nat,
{
    let (major, val, j) = match parse_head(s, i) {
        Some(h) => h,
        None => {
            return None;
        },
    };
    if major == 0 || major == 1 || major == 7 {
        Some(j)
    } else if major == 2 || major == 3 {
        if val <= (s.len() - j) as u64 {
            Some(j + (val as usize))
        } else {
            None
        }
    } else if major == 4 {
        skip_items(s, j, val)
    } else if major == 5 {
        if val >= 0x8000000000000000 {
            let n = s.len();
            proof {
                lemma_skip_items_bounds(s@, j as int, 2 * (val as nat));
                assert(s@.len() == n as nat);
            }
            None
        } else {
            skip_items(s, j, 2 * val)
        }
    } else {
        skip_value(s, j)
    }
}

/// Skips `n` consecutive whole items starting at `i`, exactly as
/// `spec_skip_items` describes it.
fn skip_items(s: &[u8], i: usize, n: u64) -> (r: Option<usize>)
    requires
        i <= s@.len(),
    ensures
        r matches Some(k) ==> spec_skip_items(s@, i as int, n as nat) == Some(k as int) && i <= k
            <= s@.len(),
        r is None ==> spec_skip_items(s@, i as int, n as nat) is None,
    decreases s@.len() - i, n, 1nat,
{
    let mut cur = i;
    let mut c: u64 = 0;
    while c < n
        invariant
            i <= cur <= s@.len(),
            c <= n,
            spec_skip_items(s@, i as int, n as nat) == spec_skip_items(
                s@,
                cur as int,
                (n - c) as nat,
            ),
        decreases n - c,
    {
        match skip_value(s, cur) {
            Some(k) => {
                cur = k;
                c = c + 1;
            },
            None => {
                return None;
            },
        }
    }
    Some(cur)
}

/// The text string item at `i`: its contained bytes and the position
/// just past them.
pub open spec fn spec_tstr(s: Seq<u8>, i: int) -> Option<(Seq<u8>, int)> {
    match spec_head(s, i) {
        None => None,
        Some((m, v, j)) => if m == 3 && j + v <= s.len() {
            Some((s.subrange(j, j + v), j + v))
        } else {
            None
        },
    }
}

/// Reads the text string item at `i` and copies out its contents.
pub fn parse_tstr(s: &[u8], i: usize) -> (r: Option<(Vec<u8>, usize)>)
    ensures
        r matches Some(p) ==> spec_tstr(s@, i as int) == Some((p.0@, p.1 as int)) && i < p.1
            <= s@.len(),
        r is None ==> spec_tstr(s@, i as int) is None,
{
    let (m, v, j) = match parse_head(s, i) {
        Some(h) => h,
        None => {
            return None;
        },
    };
    if m == 3 && v <= (s.len() - j) as u64 {
        let end = j + (v as usize);
        Some((copy_range(s, j, end), end))
    } else {
        None
    }
}

/// Copies the bytes of the range `a..b` into a fresh buffer.
pub fn copy_range(s: &[u8], a: usize, b: usize) -> (r: Vec<u8>)
    requires
        a <= b <= s@.len(),
    ensures
        r@ == s@.subrange(a as int, b as int),
{
    let mut out: Vec<u8> = Vec::new();
    let mut k = a;
    proof {
        assert(out@ =~= s@.subrange(a as int, a as int));
    }
    while k < b
        invariant
            a <= k <= b <= s@.len(),
            out@ == s@.subrange(a as int, k as int),
        decreases b - k,
    {
        out.push(s[k]);
        proof {
            assert(out@ =~= s@.subrange(a as int, k + 1));
        }
        k = k + 1;
    }
    out
}

/// Appends every byte of `src` to `out`.
pub fn push_all(out: &mut Vec<u8>, src: &[u8])
    ensures
        final(out)@ == old(out)@ + src@,
{
    let n = src.len();
    let mut k: usize = 0;
    proof {
        assert(out@ =~= old(out)@ + src@.subrange(0, 0));
    }
    while k < n
        invariant
            k <= n,
            n == src@.len(),
            out@ == old(out)@ + src@.subrange(0, k as int),
        decreases n - k,
    {
        out.push(src[k]);
        proof {
            assert(old(out)@ + src@.subrange(0, k + 1) =~= (old(out)@ + src@.subrange(
                0,
                k as int,
            )).push(src@[k as int]));
        }
        k = k + 1;
    }
    proof {
        assert(src@.subrange(0, n as int) =~= src@);
    }
}

/// Compares two byte strings for equality of contents.
pub fn bytes_eq(a: &[u8], b: &[u8]) -> (r: bool)
    ensures
        r == (a@ == b@),
{
    if a.len() != b.len() {
        return false;
    }
    let n = a.len();
    let mut k: usize = 0;
    while k < n
        invariant
            k <= n,
            n == a@.len() == b@.len(),
            forall|m: int| 0 <= m < k ==> a@[m] == b@[m],
        decreases n - k,
    {
        if a[k] != b[k] {
            return false;
        }
        k = k + 1;
    }
    proof {
        assert(a@ =~= b@);
    }
    true
}

} // verus!

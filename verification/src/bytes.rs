//! Little endian numbers and UTF-8 text in byte sequences.

use vstd::prelude::*;
use vstd::utf8::{decode_utf8, valid_utf8};

verus! {

/// 256 to the power `n`.
pub open spec fn pow256(n: nat) -> nat
    decreases n,
{
    if n == 0 {
        1
    } else {
        256 * pow256((n - 1) as nat)
    }
}

/// The number that a byte sequence holds, least significant byte first.
pub open spec fn le_value(s: Seq<u8>) -> nat
    decreases s.len(),
{
    if s.len() == 0 {
        0
    } else {
        s[0] as nat + 256 * le_value(s.skip(1))
    }
}

/// The `n` least significant bytes of a number, least significant first.
pub open spec fn le_bytes(v: nat, n: nat) -> Seq<u8>
    decreases n,
{
    if n == 0 {
        Seq::empty()
    } else {
        seq![(v % 256) as u8] + le_bytes(v / 256, (n - 1) as nat)
    }
}

/// Writing `n` bytes yields `n` bytes, and reading them gives the number
/// back, up to multiples of `256^n`.
pub proof fn le_round_trip(v: nat, n: nat)
    ensures
        le_bytes(v, n).len() == n,
        v < pow256(n) ==> le_value(le_bytes(v, n)) == v,
    decreases n,
{
    if n > 0 {
        le_round_trip(v / 256, (n - 1) as nat);
        let b = le_bytes(v, n);
        assert(b.skip(1) == le_bytes(v / 256, (n - 1) as nat));
        if v < pow256(n) {
            assert(v / 256 < pow256((n - 1) as nat));
        }
    }
}

/// The number held by `n` bytes is below `256^n`.
pub proof fn le_value_bound(s: Seq<u8>)
    ensures
        le_value(s) < pow256(s.len()),
    decreases s.len(),
{
    if s.len() > 0 {
        le_value_bound(s.skip(1));
    }
}

/// The first powers of 256 that numbers are packed with.
pub proof fn pow256_values()
    ensures
        pow256(4) == 0x1_0000_0000,
        pow256(8) == 0x1_0000_0000_0000_0000,
{
    reveal_with_fuel(pow256, 9);
}

/// Appends the eight bytes of `v`.
pub fn push_le8(out: &mut Vec<u8>, v: u64)
    ensures
        final(out)@ == old(out)@ + le_bytes(v as nat, 8),
{
    let mut rest: u64 = v;
    let mut k: usize = 0;
    while k < 8
        invariant
            k <= 8,
            out@ + le_bytes(rest as nat, (8 - k) as nat) == old(out)@ + le_bytes(v as nat, 8),
        decreases 8 - k,
    {
        let ghost before = out@;
        assert(le_bytes(rest as nat, (8 - k) as nat) == seq![(rest as nat % 256) as u8] + le_bytes(
            rest as nat / 256,
            (7 - k) as nat,
        ));
        out.push((rest % 256) as u8);
        assert(before + (seq![(rest as nat % 256) as u8] + le_bytes(rest as nat / 256, (7 - k) as nat))
            == before.push((rest as nat % 256) as u8) + le_bytes(rest as nat / 256, (7 - k) as nat));
        rest = rest / 256;
        k += 1;
    }
    assert(out@ + Seq::<u8>::empty() == out@);
}

/// The number held by the `n` bytes from `off` on.
pub fn read_le(s: &[u8], off: usize, n: usize) -> (r: u64)
    requires
        n <= 8,
        off + n <= s@.len(),
    ensures
        r == le_value(s@.subrange(off as int, off + n)),
{
    let len: usize = s.len();
    let mut v: u64 = 0;
    let mut k: usize = n;
    while k > 0
        invariant
            k <= n <= 8,
            off + n <= len,
            len == s@.len(),
            v == le_value(s@.subrange(off + k, off + n)),
            v < pow256((n - k) as nat),
        decreases k,
    {
        let ghost tail = s@.subrange(off + k, off + n);
        let ghost here = s@.subrange(off + k - 1, off + n);
        assert(here.skip(1) == tail);
        proof {
            le_value_bound(here);
            reveal_with_fuel(pow256, 9);
        }
        assert(pow256((n - k + 1) as nat) == 256 * pow256((n - k) as nat));
        v = v * 256 + s[off + k - 1] as u64;
        k -= 1;
    }
    v
}

/// The signed number with the given two's complement bits.
pub open spec fn signed(v: u64) -> i64 {
    v as i64
}

/// The two's complement bits of a signed number.
pub open spec fn unsigned(v: i64) -> u64 {
    v as u64
}

/// A signed number is fixed by its bits.
pub proof fn signed_round_trip(v: i64)
    ensures
        signed(unsigned(v)) == v,
{
    assert((v as u64) as i64 == v) by (bit_vector);
}

/// The text with which `std::str::from_utf8` describes why a byte sequence is
/// not UTF-8.
pub uninterp spec fn utf8_complaint(b: Seq<u8>) -> Seq<char>;

/// `std::str::from_utf8`: succeeds exactly on valid UTF-8, with the characters
/// that the bytes encode. Otherwise the result is the error's own text.
#[verifier::external_body]
pub(crate) fn utf8_str<'a>(b: &'a [u8]) -> (r: std::result::Result<&'a str, String>)
    ensures
        match r {
            Ok(s) => valid_utf8(b@) && s@ == decode_utf8(b@),
            Err(e) => !valid_utf8(b@) && e@ == utf8_complaint(b@),
        },
{
    std::str::from_utf8(b).map_err(|e| e.to_string())
}

} // verus!

//! Little-endian integers of any width, as the foreign process stores them.
//!
//! A field of a foreign structure is a run of bytes at an unaligned offset.
//! Its integer value is the little-endian reading of that run, whatever its
//! width; floating-point fields are carried as the same integer (their bit
//! pattern), never interpreted.

use vstd::prelude::*;

verus! {

/// 256 to the power `n`: the number of values that `n` bytes can hold.
pub open spec fn pow256(n: nat) -> nat
    decreases n,
{
    if n == 0 {
        1
    } else {
        256 * pow256((n - 1) as nat)
    }
}

/// The integer that `bytes` spell, least significant byte first.
pub open spec fn le_value(bytes: Seq<u8>) -> nat
    decreases bytes.len(),
{
    if bytes.len() == 0 {
        0
    } else {
        bytes[0] as nat + 256 * le_value(bytes.drop_first())
    }
}

/// The `width` low bytes of `value`, least significant byte first.
pub open spec fn le_bytes(value: nat, width: nat) -> Seq<u8>
    decreases width,
{
    if width == 0 {
        Seq::empty()
    } else {
        seq![(value % 256) as u8] + le_bytes(value / 256, (width - 1) as nat)
    }
}

/// The signed reading of a 32-bit two's complement pattern.
pub open spec fn signed32(pattern: nat) -> int {
    if pattern < 0x8000_0000 {
        pattern as int
    } else {
        pattern - 0x1_0000_0000
    }
}

pub proof fn lemma_pow256_positive(n: nat)
    ensures
        pow256(n) > 0,
    decreases n,
{
    if n > 0 {
        lemma_pow256_positive((n - 1) as nat);
    }
}

pub proof fn lemma_pow256_monotonic(a: nat, b: nat)
    requires
        a <= b,
    ensures
        pow256(a) <= pow256(b),
    decreases b,
{
    if a < b {
        lemma_pow256_monotonic(a, (b - 1) as nat);
        lemma_pow256_positive((b - 1) as nat);
    }
}

/// The powers that the fixed-width integer types end at.
pub proof fn lemma_pow256_values()
    ensures
        pow256(0) == 1,
        pow256(1) == 0x100,
        pow256(2) == 0x1_0000,
        pow256(4) == 0x1_0000_0000,
        pow256(8) == 0x1_0000_0000_0000_0000,
        pow256(16) == 0x1_0000_0000_0000_0000_0000_0000_0000_0000,
{
    reveal_with_fuel(pow256, 9);
    assert(pow256(16) == pow256(8) * pow256(8)) by {
        reveal_with_fuel(pow256, 9);
    }
}

pub proof fn lemma_le_bytes_len(value: nat, width: nat)
    ensures
        le_bytes(value, width).len() == width,
    decreases width,
{
    if width > 0 {
        lemma_le_bytes_len(value / 256, (width - 1) as nat);
    }
}

/// A run of `n` bytes spells a value below `256^n`.
pub proof fn lemma_le_value_bound(bytes: Seq<u8>)
    ensures
        le_value(bytes) < pow256(bytes.len()),
    decreases bytes.len(),
{
    if bytes.len() > 0 {
        lemma_le_value_bound(bytes.drop_first());
    }
}

/// Encoding keeps the value modulo `256^width`: a value that fits comes back
/// unchanged, a larger one loses its high bytes.
pub proof fn lemma_le_value_of_bytes(value: nat, width: nat)
    ensures
        le_value(le_bytes(value, width)) == value % pow256(width),
    decreases width,
{
    if width == 0 {
    } else {
        let rest = le_bytes(value / 256, (width - 1) as nat);
        let all = le_bytes(value, width);
        lemma_le_value_of_bytes(value / 256, (width - 1) as nat);
        assert(all.drop_first() =~= rest);
        assert(all[0] == (value % 256) as u8);
        let p = pow256((width - 1) as nat);
        lemma_pow256_positive((width - 1) as nat);
        lemma_mod_step(value, p);
    }
}

/// Splitting off the lowest base-256 digit commutes with reduction modulo a
/// power of 256.
proof fn lemma_mod_step(value: nat, p: nat)
    requires
        p > 0,
    ensures
        value % 256 + 256 * ((value / 256) % p) == value % (256 * p),
{
    let q = value / 256;
    let r = value % 256;
    let qq = q / p;
    let qr = q % p;
    assert(value == 256 * q + r);
    assert(q == p * qq + qr) by (nonlinear_arith)
        requires
            qq == q / p,
            qr == q % p,
            p > 0,
    ;
    assert(0 <= qr < p) by (nonlinear_arith)
        requires
            qr == q % p,
            p > 0,
    ;
    let low = r + 256 * qr;
    assert(0 <= low < 256 * p) by (nonlinear_arith)
        requires
            0 <= r < 256,
            0 <= qr < p,
            low == r + 256 * qr,
    ;
    assert(value == (256 * p) * qq + low) by (nonlinear_arith)
        requires
            value == 256 * q + r,
            q == p * qq + qr,
            low == r + 256 * qr,
    ;
    vstd::arithmetic::div_mod::lemma_fundamental_div_mod_converse(
        value as int,
        (256 * p) as int,
        qq as int,
        low as int,
    );
}

/// Decoding then encoding at the same width gives the bytes back.
pub proof fn lemma_le_bytes_of_value(bytes: Seq<u8>)
    ensures
        le_bytes(le_value(bytes), bytes.len()) == bytes,
    decreases bytes.len(),
{
    if bytes.len() == 0 {
        assert(le_bytes(le_value(bytes), 0) =~= bytes);
    } else {
        let rest = bytes.drop_first();
        lemma_le_bytes_of_value(rest);
        let v = le_value(bytes);
        assert(v % 256 == bytes[0] as nat);
        assert(v / 256 == le_value(rest));
        assert(le_bytes(v, bytes.len()) =~= bytes);
    }
}

/// Reads `bytes` as one little-endian integer.
pub fn decode_le(bytes: &[u8]) -> (value: u128)
    requires
        bytes@.len() <= 16,
    ensures
        value == le_value(bytes@),
{
    let n: usize = bytes.len();
    let mut value: u128 = 0;
    let mut i: usize = n;
    proof {
        assert(bytes@.subrange(n as int, n as int) =~= Seq::<u8>::empty());
    }
    while i > 0
        invariant
            n == bytes@.len(),
            n <= 16,
            i <= n,
            value == le_value(bytes@.subrange(i as int, n as int)),
        decreases i,
    {
        i = i - 1;
        proof {
            let tail = bytes@.subrange(i as int, n as int);
            let shorter = bytes@.subrange(i as int + 1, n as int);
            assert(tail.drop_first() =~= shorter);
            assert(tail[0] == bytes@[i as int]);
            lemma_le_value_bound(shorter);
            lemma_pow256_monotonic(shorter.len(), 15);
            lemma_pow256_values();
            assert(256 * pow256(15) == pow256(16));
        }
        value = value * 256 + bytes[i] as u128;
    }
    proof {
        assert(bytes@.subrange(0, n as int) =~= bytes@);
    }
    value
}

/// Spells the low `width` bytes of `value`, least significant first.
pub fn encode_le(value: u128, width: usize) -> (bytes: Vec<u8>)
    ensures
        bytes@ == le_bytes(value as nat, width as nat),
{
    let mut bytes: Vec<u8> = Vec::new();
    let mut rest: u128 = value;
    let mut i: usize = 0;
    while i < width
        invariant
            i <= width,
            bytes@.len() == i,
            bytes@ + le_bytes(rest as nat, (width - i) as nat) == le_bytes(
                value as nat,
                width as nat,
            ),
        decreases width - i,
    {
        let ghost before = bytes@;
        let ghost tail = le_bytes(rest as nat, (width - i) as nat);
        let digit: u8 = (rest % 256) as u8;
        bytes.push(digit);
        rest = rest / 256;
        i = i + 1;
        proof {
            let next = le_bytes(rest as nat, (width - i) as nat);
            assert(tail =~= seq![digit] + next);
            assert(bytes@ + next =~= before + tail);
        }
    }
    proof {
        assert(bytes@ + le_bytes(rest as nat, 0) =~= bytes@);
    }
    bytes
}

} // verus!

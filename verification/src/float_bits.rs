use vstd::prelude::*;

verus! {

use vstd::arithmetic::power2::{lemma2_to64, pow2};

/// The biased exponent field of an `f32` bit pattern.
pub open spec fn f32_exponent(bits: u32) -> int {
    (bits as int / 0x80_0000) % 0x100
}

/// Whether an `f32` bit pattern is a finite value (`f32::is_finite`): its
/// exponent field is not all ones.
pub open spec fn f32_is_finite(bits: u32) -> bool {
    f32_exponent(bits) != 0xFF
}

/// Whether an `f32` bit pattern is NaN: all-ones exponent, non-zero fraction.
pub open spec fn f32_is_nan(bits: u32) -> bool {
    f32_exponent(bits) == 0xFF && bits as int % 0x80_0000 != 0
}

/// Whether an `f32` bit pattern has its sign bit set.
pub open spec fn f32_sign(bits: u32) -> bool {
    bits >= 0x8000_0000
}

/// Whether an `f32` bit pattern is +0.0 or -0.0.
pub open spec fn f32_is_zero(bits: u32) -> bool {
    bits == 0 || bits == 0x8000_0000
}

/// IEEE 754 equality (`==` on `f32`): NaN equals nothing, +0.0 equals -0.0,
/// every other value equals exactly its own bit pattern.
pub open spec fn f32_eq(a: u32, b: u32) -> bool {
    !f32_is_nan(a) && !f32_is_nan(b) && (a == b || (f32_is_zero(a) && f32_is_zero(b)))
}

pub fn is_finite(bits: u32) -> (finite: bool)
    ensures
        finite == f32_is_finite(bits),
{
    (bits / 0x80_0000) % 0x100 != 0xFF
}

pub fn is_nan(bits: u32) -> (nan: bool)
    ensures
        nan == f32_is_nan(bits),
{
    (bits / 0x80_0000) % 0x100 == 0xFF && bits % 0x80_0000 != 0
}

pub fn float_eq(a: u32, b: u32) -> (equal: bool)
    ensures
        equal == f32_eq(a, b),
{
    !is_nan(a) && !is_nan(b) && (a == b || ((a == 0 || a == 0x8000_0000) && (b == 0 || b == 0x8000_0000)))
}

/// Whether an `f32` bit pattern is a finite value `>= 0.0` (-0.0 included).
pub open spec fn f32_finite_non_negative(bits: u32) -> bool {
    f32_is_finite(bits) && (!f32_sign(bits) || bits == 0x8000_0000)
}

/// Whether an `f32` bit pattern is a finite value `> 0.0`.
pub open spec fn f32_finite_positive(bits: u32) -> bool {
    f32_is_finite(bits) && !f32_sign(bits) && bits != 0
}

/// Whether an `f32` bit pattern is a finite value in the open interval
/// (-1.0, 0.5): the magnitude bits lie below those of 0.5 (`0x3F00_0000`)
/// for non-negative values and below those of 1.0 (`0x3F80_0000`) for
/// negative ones.
pub open spec fn f32_in_poisson_range(bits: u32) -> bool {
    f32_is_finite(bits) && if bits < 0x8000_0000 {
        bits < 0x3F00_0000
    } else {
        bits - 0x8000_0000 < 0x3F80_0000
    }
}

pub fn f32_poisson_range(bits: u32) -> (ok: bool)
    ensures
        ok == f32_in_poisson_range(bits),
{
    is_finite(bits) && if bits < 0x8000_0000 {
        bits < 0x3F00_0000
    } else {
        bits - 0x8000_0000 < 0x3F80_0000
    }
}

pub fn finite_non_negative(bits: u32) -> (ok: bool)
    ensures
        ok == f32_finite_non_negative(bits),
{
    is_finite(bits) && (bits < 0x8000_0000 || bits == 0x8000_0000)
}

pub fn finite_positive(bits: u32) -> (ok: bool)
    ensures
        ok == f32_finite_positive(bits),
{
    is_finite(bits) && bits < 0x8000_0000 && bits != 0
}

/// Whether an `f64` bit pattern is a finite value (`f64::is_finite`): its
/// 11-bit exponent field is not all ones.
pub open spec fn f64_is_finite(bits: u64) -> bool {
    (bits as int / 0x10_0000_0000_0000) % 0x800 != 0x7FF
}

/// Whether an `f64` bit pattern is a finite value `> 0.0`.
pub open spec fn f64_finite_positive(bits: u64) -> bool {
    f64_is_finite(bits) && bits < 0x8000_0000_0000_0000 && bits != 0
}

/// Whether an `f64` bit pattern is a finite value in the open interval
/// (-1.0, 0.5). Finite doubles of one sign are ordered by their magnitude
/// bits, so the bounds are the patterns of 0.5 (`0x3FE0...`) and of 1.0
/// (`0x3FF0...`).
pub open spec fn f64_in_poisson_range(bits: u64) -> bool {
    f64_is_finite(bits) && if bits < 0x8000_0000_0000_0000 {
        bits < 0x3FE0_0000_0000_0000
    } else {
        bits - 0x8000_0000_0000_0000 < 0x3FF0_0000_0000_0000
    }
}

pub fn f64_finite(bits: u64) -> (finite: bool)
    ensures
        finite == f64_is_finite(bits),
{
    (bits / 0x10_0000_0000_0000) % 0x800 != 0x7FF
}

pub fn f64_positive(bits: u64) -> (ok: bool)
    ensures
        ok == f64_finite_positive(bits),
{
    f64_finite(bits) && bits < 0x8000_0000_0000_0000 && bits != 0
}

pub fn f64_poisson_range(bits: u64) -> (ok: bool)
    ensures
        ok == f64_in_poisson_range(bits),
{
    f64_finite(bits) && if bits < 0x8000_0000_0000_0000 {
        bits < 0x3FE0_0000_0000_0000
    } else {
        bits - 0x8000_0000_0000_0000 < 0x3FF0_0000_0000_0000
    }
}


/// ⌊log2 m⌋ for 1 <= m < 256.
pub open spec fn small_log2(m: int) -> nat {
    if m >= 128 {
        7
    } else if m >= 64 {
        6
    } else if m >= 32 {
        5
    } else if m >= 16 {
        4
    } else if m >= 8 {
        3
    } else if m >= 4 {
        2
    } else if m >= 2 {
        1
    } else {
        0
    }
}

/// The bit pattern of `n as f32`: every `i8` is exact in `f32`, with sign
/// bit, biased exponent `127 + e` for `2^e <= |n| < 2^(e+1)`, and the bits of
/// `|n|` below its leading one as the top of the fraction.
pub open spec fn i8_f32_bits(n: i8) -> u32 {
    if n == 0 {
        0
    } else {
        let m = if n < 0 { -(n as int) } else { n as int };
        let e = small_log2(m);
        ((if n < 0 { 0x8000_0000int } else { 0int }) + (127 + e) * 0x80_0000 + (m - pow2(e)) * pow2(
            (23 - e) as nat,
        )) as u32
    }
}

/// `n as f32`, as a bit pattern.
pub fn i8_to_f32_bits(n: i8) -> (bits: u32)
    ensures
        bits == i8_f32_bits(n),
{
    proof {
        lemma2_to64();
    }
    if n == 0 {
        return 0;
    }
    let sign: u32 = if n < 0 { 0x8000_0000 } else { 0 };
    let m: u32 = if n < 0 { (0 - (n as i32)) as u32 } else { n as u32 };
    assert(m as int == (if n < 0 { -(n as int) } else { n as int }));
    if m >= 128 {
        pack_f32(sign, m, 7, 128, 0x1_0000)
    } else if m >= 64 {
        pack_f32(sign, m, 6, 64, 0x2_0000)
    } else if m >= 32 {
        pack_f32(sign, m, 5, 32, 0x4_0000)
    } else if m >= 16 {
        pack_f32(sign, m, 4, 16, 0x8_0000)
    } else if m >= 8 {
        pack_f32(sign, m, 3, 8, 0x10_0000)
    } else if m >= 4 {
        pack_f32(sign, m, 2, 4, 0x20_0000)
    } else if m >= 2 {
        pack_f32(sign, m, 1, 2, 0x40_0000)
    } else {
        pack_f32(sign, m, 0, 1, 0x80_0000)
    }
}

/// Sign, biased exponent `127 + e` and the fraction bits of a magnitude `m`
/// with `2^e <= m < 2^(e+1)`; `q` is `2^(23 - e)`.
fn pack_f32(sign: u32, m: u32, e: u32, p: u32, q: u32) -> (bits: u32)
    requires
        sign == 0 || sign == 0x8000_0000,
        e <= 7,
        p <= m < 2 * p,
        p * q == 0x80_0000,
    ensures
        bits == sign + (127 + e) * 0x80_0000 + (m - p) * q,
{
    assert((m - p) * q < 0x80_0000) by (nonlinear_arith)
        requires
            p <= m < 2 * p,
            p * q == 0x80_0000,
    ;
    sign + (127 + e) * 0x80_0000 + (m - p) * q
}

} // verus!

//! The arithmetic of WebAssembly integers on their bit patterns: what each
//! folded operation computes on two constants of one width.
use vstd::prelude::*;
use vstd::arithmetic::power2::{lemma2_to64, lemma_pow2_strictly_increases, lemma_pow2_unfold, pow2};

verus! {

/// `a / b` rounded toward zero.
pub open spec fn trunc_div(a: int, b: int) -> int {
    let q = abs(a) / abs(b);
    if (a >= 0) == (b > 0) || a == 0 { q } else { -q }
}

/// The remainder of `trunc_div`, with the sign of `a`.
pub open spec fn trunc_rem(a: int, b: int) -> int {
    if a >= 0 { abs(a) % abs(b) } else { -(abs(a) % abs(b)) }
}

pub open spec fn abs(a: int) -> int {
    if a >= 0 { a } else { -a }
}

/// The number of one bits of `n`.
pub open spec fn count_ones(n: nat) -> nat
    decreases n,
{
    if n == 0 { 0 } else { n % 2 + count_ones(n / 2) }
}

/// The `k` with `n == 2^k`, if there is one.
pub open spec fn power_of_two_exponent(n: nat) -> Option<nat>
    decreases n,
{
    if n == 1 {
        Some(0)
    } else if n >= 2 && n % 2 == 0 {
        match power_of_two_exponent(n / 2) {
            Some(k) => Some(k + 1),
            None => None,
        }
    } else {
        None
    }
}

/// `x` rotated left by `y` bits, 32-bit.
pub open spec fn rotl32(x: u32, y: u32) -> u32 {
    let s = y % 32;
    if s == 0 { x } else { (x << s) | (x >> ((32 - s) as u32)) }
}

/// `x` rotated right by `y` bits, 32-bit.
pub open spec fn rotr32(x: u32, y: u32) -> u32 {
    let s = y % 32;
    if s == 0 { x } else { (x >> s) | (x << ((32 - s) as u32)) }
}

/// `x` rotated left by `y` bits, 64-bit.
pub open spec fn rotl64(x: u64, y: u64) -> u64 {
    let s = (y % 64) as u64;
    if s == 0 { x } else { (x << s) | (x >> ((64 - s) as u64)) }
}

/// `x` rotated right by `y` bits, 64-bit.
pub open spec fn rotr64(x: u64, y: u64) -> u64 {
    let s = (y % 64) as u64;
    if s == 0 { x } else { (x >> s) | (x << ((64 - s) as u64)) }
}

pub proof fn lemma_count_ones_le(n: nat)
    ensures
        count_ones(n) <= n,
    decreases n,
{
    if n > 0 {
        lemma_count_ones_le(n / 2);
    }
}

pub fn rotl_u32(x: u32, y: u32) -> (r: u32)
    ensures
        r == rotl32(x, y),
{
    let s = y % 32;
    if s == 0 { x } else { (x << s) | (x >> (32 - s)) }
}

pub fn rotr_u32(x: u32, y: u32) -> (r: u32)
    ensures
        r == rotr32(x, y),
{
    let s = y % 32;
    if s == 0 { x } else { (x >> s) | (x << (32 - s)) }
}

pub fn rotl_u64(x: u64, y: u64) -> (r: u64)
    ensures
        r == rotl64(x, y),
{
    let s = y % 64;
    if s == 0 { x } else { (x << s) | (x >> (64 - s)) }
}

pub fn rotr_u64(x: u64, y: u64) -> (r: u64)
    ensures
        r == rotr64(x, y),
{
    let s = y % 64;
    if s == 0 { x } else { (x >> s) | (x << (64 - s)) }
}

/// The number of one bits of `x`.
pub fn count_ones_u64(x: u64) -> (r: u64)
    ensures
        r == count_ones(x as nat),
{
    let mut v = x;
    let mut c: u64 = 0;
    proof {
        lemma_count_ones_le(x as nat);
    }
    while v != 0
        invariant
            c + count_ones(v as nat) == count_ones(x as nat),
            count_ones(x as nat) <= x,
        decreases v,
    {
        c = c + v % 2;
        v = v / 2;
    }
    c
}

/// The `k` with `x == 2^k`, if there is one.
pub fn exact_log2(x: u64) -> (r: Option<u32>)
    ensures
        match power_of_two_exponent(x as nat) {
            Some(k) => r == Some(k as u32),
            None => r is None,
        },
        r matches Some(k) ==> k < 64,
        power_of_two_exponent(x as nat) matches Some(k) ==> k < 64,
{
    if x == 0 {
        return None;
    }
    let mut v = x;
    let mut k: u32 = 0;
    proof {
        lemma2_to64();
    }
    while v % 2 == 0 && v > 1
        invariant
            1 <= v <= x,
            k < 64,
            v as nat * pow2(k as nat) == x as nat,
            pow2(64) == 0x1_0000_0000_0000_0000,
            power_of_two_exponent(x as nat) == match power_of_two_exponent(v as nat) {
                Some(j) => Some((j + k) as nat),
                None => None::<nat>,
            },
        decreases v,
    {
        proof {
            lemma_pow2_unfold((k + 1) as nat);
            assert(v as nat * pow2(k as nat) == (v / 2) as nat * pow2((k + 1) as nat)) by (nonlinear_arith)
                requires
                    v % 2 == 0,
                    pow2((k + 1) as nat) == 2 * pow2(k as nat),
            ;
            assert((v / 2) as nat * pow2((k + 1) as nat) >= pow2((k + 1) as nat)) by (nonlinear_arith)
                requires
                    v / 2 >= 1,
            ;
            if k + 1 >= 64 {
                if k + 1 > 64 {
                    lemma_pow2_strictly_increases(64, (k + 1) as nat);
                }
                assert(false);
            }
        }
        v = v / 2;
        k = k + 1;
    }
    if v == 1 {
        Some(k)
    } else {
        None
    }
}

/// Signed 32-bit division, rounding toward zero.
pub open spec fn sdiv32(x: u32, y: u32) -> u32 {
    (trunc_div(x as i32 as int, y as i32 as int) as i32) as u32
}

/// Signed 64-bit division, rounding toward zero.
pub open spec fn sdiv64(x: u64, y: u64) -> u64 {
    (trunc_div(x as i64 as int, y as i64 as int) as i64) as u64
}

/// Signed 32-bit remainder, with the sign of the dividend.
pub open spec fn srem32(x: u32, y: u32) -> u32 {
    (trunc_rem(x as i32 as int, y as i32 as int) as i32) as u32
}

/// Signed 64-bit remainder, with the sign of the dividend.
pub open spec fn srem64(x: u64, y: u64) -> u64 {
    (trunc_rem(x as i64 as int, y as i64 as int) as i64) as u64
}

/// Whether a signed division of `x` by `y` overflows: the most negative
/// value divided by minus one.
pub open spec fn sdiv32_overflows(x: u32, y: u32) -> bool {
    x == 0x8000_0000 && y == 0xffff_ffff
}

pub open spec fn sdiv64_overflows(x: u64, y: u64) -> bool {
    x == 0x8000_0000_0000_0000 && y == 0xffff_ffff_ffff_ffff
}


/// A quotient rounded toward zero stays within the range of its operands'
/// width, but for the most negative value divided by minus one.
proof fn lemma_trunc_div_in_range(x: int, d: int, hi: int)
    requires
        -hi - 1 <= x <= hi,
        -hi - 1 <= d <= hi,
        d != 0,
        !(x == -hi - 1 && d == -1),
        hi > 0,
    ensures
        x > 0 && d > 0 ==> 0 <= x / d <= hi,
        x < 0 && d < 0 ==> 0 <= (x * -1) / (d * -1) <= hi,
        x < 0 && d > 0 ==> -hi - 1 <= ((x * -1) / d) * -1 <= 0,
        x > 0 && d < 0 ==> -hi - 1 <= (x / (d * -1)) * -1 <= 0,
{
    if x > 0 && d > 0 {
        assert(0 <= x / d <= x) by (nonlinear_arith)
            requires
                x > 0,
                d > 0,
        ;
    }
    if x < 0 && d < 0 {
        if d == -1 {
            assert((x * -1) / (d * -1) == x * -1) by (nonlinear_arith)
                requires
                    d == -1,
            ;
        } else {
            assert(0 <= (x * -1) / (d * -1) <= (x * -1) / 2) by (nonlinear_arith)
                requires
                    x * -1 > 0,
                    d * -1 >= 2,
            ;
        }
    }
    if x < 0 && d > 0 {
        assert(0 <= (x * -1) / d <= x * -1) by (nonlinear_arith)
            requires
                x * -1 > 0,
                d > 0,
        ;
    }
    if x > 0 && d < 0 {
        assert(0 <= x / (d * -1) <= x) by (nonlinear_arith)
            requires
                x > 0,
                d * -1 > 0,
        ;
    }
}

pub fn sdiv_u32(x: u32, y: u32) -> (r: u32)
    requires
        y != 0,
        !sdiv32_overflows(x, y),
    ensures
        r == sdiv32(x, y),
{
    let a = x as i32;
    let b = y as i32;
    assert(b != 0 && !(a == -0x8000_0000i32 && b == -1i32)) by (bit_vector)
        requires
            a == x as i32,
            b == y as i32,
            y != 0,
            !(x == 0x8000_0000 && y == 0xffff_ffff),
    ;
    proof {
        lemma_trunc_div_in_range(a as int, b as int, 0x7fff_ffff);
    }
    match a.checked_div(b) {
        Some(q) => q as u32,
        None => {
            assert(false);
            0
        },
    }
}

pub fn sdiv_u64(x: u64, y: u64) -> (r: u64)
    requires
        y != 0,
        !sdiv64_overflows(x, y),
    ensures
        r == sdiv64(x, y),
{
    let a = x as i64;
    let b = y as i64;
    assert(b != 0 && !(a == -0x8000_0000_0000_0000i64 && b == -1i64)) by (bit_vector)
        requires
            a == x as i64,
            b == y as i64,
            y != 0,
            !(x == 0x8000_0000_0000_0000 && y == 0xffff_ffff_ffff_ffff),
    ;
    proof {
        lemma_trunc_div_in_range(a as int, b as int, 0x7fff_ffff_ffff_ffff);
    }
    match a.checked_div(b) {
        Some(q) => q as u64,
        None => {
            assert(false);
            0
        },
    }
}

pub fn srem_u32(x: u32, y: u32) -> (r: u32)
    requires
        y != 0,
        !sdiv32_overflows(x, y),
    ensures
        r == srem32(x, y),
{
    let a = x as i32;
    let b = y as i32;
    assert(b != 0 && !(a == -0x8000_0000i32 && b == -1i32)) by (bit_vector)
        requires
            a == x as i32,
            b == y as i32,
            y != 0,
            !(x == 0x8000_0000 && y == 0xffff_ffff),
    ;
    assert(abs(a as int) % abs(b as int) < abs(b as int)) by (nonlinear_arith)
        requires
            abs(b as int) >= 1,
    ;
    match a.checked_rem(b) {
        Some(q) => q as u32,
        None => {
            assert(false);
            0
        },
    }
}

pub fn srem_u64(x: u64, y: u64) -> (r: u64)
    requires
        y != 0,
        !sdiv64_overflows(x, y),
    ensures
        r == srem64(x, y),
{
    let a = x as i64;
    let b = y as i64;
    assert(b != 0 && !(a == -0x8000_0000_0000_0000i64 && b == -1i64)) by (bit_vector)
        requires
            a == x as i64,
            b == y as i64,
            y != 0,
            !(x == 0x8000_0000_0000_0000 && y == 0xffff_ffff_ffff_ffff),
    ;
    assert(abs(a as int) % abs(b as int) < abs(b as int)) by (nonlinear_arith)
        requires
            abs(b as int) >= 1,
    ;
    match a.checked_rem(b) {
        Some(q) => q as u64,
        None => {
            assert(false);
            0
        },
    }
}

/// Arithmetic shift right of the 32 bits of `x` by `y % 32`.
pub open spec fn sshr32(x: u32, y: u32) -> u32 {
    ((x as i32) >> (y % 32)) as u32
}

/// Arithmetic shift right of the 64 bits of `x` by `y % 64`.
pub open spec fn sshr64(x: u64, y: u64) -> u64 {
    ((x as i64) >> ((y % 64) as u32)) as u64
}

pub fn sshr_u32(x: u32, y: u32) -> (r: u32)
    ensures
        r == sshr32(x, y),
{
    ((x as i32).wrapping_shr(y)) as u32
}

pub fn sshr_u64(x: u64, y: u64) -> (r: u64)
    ensures
        r == sshr64(x, y),
{
    ((x as i64).wrapping_shr((y % 64) as u32)) as u64
}

} // verus!

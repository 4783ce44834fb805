//! What an integer of the value graph evaluates to when every leaf is a
//! constant, and the soundness of constant folding against it.
use vstd::prelude::*;
use vstd::arithmetic::power2::{lemma2_to64, lemma_pow2_strictly_increases, lemma_pow2_unfold, pow2};
use vstd::bits::{lemma_u32_shr_is_div, lemma_u64_shr_is_div};
use vstd::std_specs::bits::{u32_leading_zeros, u32_trailing_zeros, u64_leading_zeros, u64_trailing_zeros};
use crate::values::bits::{
    count_ones, power_of_two_exponent, rotl32, rotl64, rotr32, rotr64, sdiv32, sdiv64, srem32,
    srem64, sshr32, sshr64,
};
use crate::values::integer::{
    binary, constant, fold_add, fold_bitwise, fold_division, fold_mul, fold_shift, fold_sub,
    fold_udiv, fold_ushr, opt_zero, sign_extend, spec_binary, spec_count, spec_operands,
    spec_ushr, unary, BinarySource, ConstantSource, ConversionSource, Integer, IntegerSource,
    UnarySource,
};

verus! {

/// `op(x)` on a constant.
pub open spec fn apply_unary(op: UnarySource, x: ConstantSource) -> ConstantSource {
    match x {
        ConstantSource::Short(x) => ConstantSource::Short(
            match op {
                UnarySource::Not => !x,
                UnarySource::Negate => ((0 - x) % 0x1_0000_0000) as u32,
                UnarySource::LeadingZeros => u32_leading_zeros(x),
                UnarySource::TrainlingZeros => u32_trailing_zeros(x),
                UnarySource::BitCount => count_ones(x as nat) as u32,
            },
        ),
        ConstantSource::Long(x) => ConstantSource::Long(
            match op {
                UnarySource::Not => !x,
                UnarySource::Negate => ((0 - x) % 0x1_0000_0000_0000_0000) as u64,
                UnarySource::LeadingZeros => u64_leading_zeros(x) as u64,
                UnarySource::TrainlingZeros => u64_trailing_zeros(x) as u64,
                UnarySource::BitCount => count_ones(x as nat) as u64,
            },
        ),
    }
}

/// `op(x, y)` on two constants of one width: none for a division by zero
/// or for operands of two widths.
pub open spec fn apply_binary(op: BinarySource, x: ConstantSource, y: ConstantSource) -> Option<ConstantSource> {
    match (x, y) {
        (ConstantSource::Short(x), ConstantSource::Short(y)) => {
            let divides = op == BinarySource::SDiv || op == BinarySource::UDiv || op == BinarySource::SRem
                || op == BinarySource::URem;
            if divides && y == 0 {
                None
            } else {
                Some(ConstantSource::Short(
                    match op {
                        BinarySource::Add => ((x + y) % 0x1_0000_0000) as u32,
                        BinarySource::Sub => ((x - y) % 0x1_0000_0000) as u32,
                        BinarySource::Mul => ((x * y) % 0x1_0000_0000) as u32,
                        BinarySource::SDiv => sdiv32(x, y),
                        BinarySource::UDiv => x / y,
                        BinarySource::SRem => srem32(x, y),
                        BinarySource::URem => x % y,
                        BinarySource::And => x & y,
                        BinarySource::Or => x | y,
                        BinarySource::Xor => x ^ y,
                        BinarySource::Shl => x << (y % 32),
                        BinarySource::SShr => sshr32(x, y),
                        BinarySource::UShr => x >> (y % 32),
                        BinarySource::Rotl => rotl32(x, y),
                        BinarySource::Rotr => rotr32(x, y),
                    },
                ))
            }
        },
        (ConstantSource::Long(x), ConstantSource::Long(y)) => {
            let divides = op == BinarySource::SDiv || op == BinarySource::UDiv || op == BinarySource::SRem
                || op == BinarySource::URem;
            if divides && y == 0 {
                None
            } else {
                Some(ConstantSource::Long(
                    match op {
                        BinarySource::Add => ((x + y) % 0x1_0000_0000_0000_0000) as u64,
                        BinarySource::Sub => ((x - y) % 0x1_0000_0000_0000_0000) as u64,
                        BinarySource::Mul => ((x * y) % 0x1_0000_0000_0000_0000) as u64,
                        BinarySource::SDiv => sdiv64(x, y),
                        BinarySource::UDiv => x / y,
                        BinarySource::SRem => srem64(x, y),
                        BinarySource::URem => x % y,
                        BinarySource::And => x & y,
                        BinarySource::Or => x | y,
                        BinarySource::Xor => x ^ y,
                        BinarySource::Shl => x << (y % 64),
                        BinarySource::SShr => sshr64(x, y),
                        BinarySource::UShr => x >> (y % 64),
                        BinarySource::Rotl => rotl64(x, y),
                        BinarySource::Rotr => rotr64(x, y),
                    },
                ))
            }
        },
        _ => None,
    }
}

/// The constant an integer evaluates to when all of its leaves are
/// constants; none otherwise.
pub open spec fn eval(i: Integer) -> Option<ConstantSource>
    decreases i,
{
    match i.source {
        IntegerSource::Constant(c) => Some(c),
        IntegerSource::Conversion(ConversionSource::FromLong(v)) => match eval(*v) {
            Some(ConstantSource::Long(x)) => Some(ConstantSource::Short(x as u32)),
            _ => None,
        },
        IntegerSource::Conversion(ConversionSource::FromShort { signed, value }) => match eval(*value) {
            Some(ConstantSource::Short(x)) => Some(ConstantSource::Long(
                if signed { sign_extend(x) } else { x as u64 },
            )),
            _ => None,
        },
        IntegerSource::Unary { source, op1 } => match eval(*op1) {
            Some(x) => Some(apply_unary(source, x)),
            None => None,
        },
        IntegerSource::Binary { source, op1, op2 } => match (eval(*op1), eval(*op2)) {
            (Some(x), Some(y)) => apply_binary(source, x, y),
            _ => None,
        },
        _ => None,
    }
}

/// A constant that the graph knows an integer to be is what it evaluates to.
pub proof fn lemma_constant_evaluates(i: Integer)
    ensures
        i.spec_constant() matches Ok(Some(c)) ==> eval(i) == Some(c),
    decreases i,
{
    if let Some(v) = converted(i) {
        lemma_constant_evaluates(v);
    }
}

/// The integer that a width conversion converts.
pub open spec fn converted(i: Integer) -> Option<Integer> {
    match i.source {
        IntegerSource::Conversion(ConversionSource::FromLong(v)) => Some(*v),
        IntegerSource::Conversion(ConversionSource::FromShort { value, .. }) => Some(*value),
        _ => None,
    }
}

/// The exponent of a power of two gives it back.
pub proof fn lemma_power_of_two_exponent(n: nat)
    ensures
        power_of_two_exponent(n) matches Some(k) ==> pow2(k) == n,
    decreases n,
{
    if n >= 2 && n % 2 == 0 {
        lemma_power_of_two_exponent(n / 2);
        if let Some(k) = power_of_two_exponent(n / 2) {
            lemma_pow2_unfold(k + 1);
        }
    }
    if n == 1 {
        lemma2_to64();
    }
}

proof fn lemma_zero_shifts()
    ensures
        forall|y: u32| #![trigger rotl32(0, y)] rotl32(0, y) == 0 && rotr32(0, y) == 0 && sshr32(0, y) == 0
            && (0u32 << (y % 32)) == 0 && (0u32 >> (y % 32)) == 0,
        forall|y: u64| #![trigger rotl64(0, y)] rotl64(0, y) == 0 && rotr64(0, y) == 0 && sshr64(0, y) == 0
            && (0u64 << (y % 64)) == 0 && (0u64 >> (y % 64)) == 0,
        forall|x: u32| #![trigger sshr32(x, 0)] sshr32(x, 0) == x && (x << 0u32) == x && (x >> 0u32) == x,
        forall|x: u64| #![trigger sshr64(x, 0)] sshr64(x, 0) == x && (x << 0u64) == x && (x >> 0u64) == x,
{
    assert forall|y: u32| #![trigger rotl32(0, y)] rotl32(0, y) == 0 && rotr32(0, y) == 0 && sshr32(0, y) == 0
        && (0u32 << (y % 32)) == 0 && (0u32 >> (y % 32)) == 0 by {
        let s = y % 32;
        assert((0u32 << s) == 0 && (0u32 >> s) == 0 && (0u32 >> ((32 - s) as u32)) == 0 && (0u32 << ((32 - s) as u32)) == 0 && (0u32 | 0u32) == 0) by (bit_vector);
        assert(((0u32 as i32) >> s) as u32 == 0) by (bit_vector);
    }
    assert forall|y: u64| #![trigger rotl64(0, y)] rotl64(0, y) == 0 && rotr64(0, y) == 0 && sshr64(0, y) == 0
        && (0u64 << (y % 64)) == 0 && (0u64 >> (y % 64)) == 0 by {
        let s = (y % 64) as u64;
        assert((0u64 << s) == 0 && (0u64 >> s) == 0 && (0u64 >> ((64 - s) as u64)) == 0 && (0u64 << ((64 - s) as u64)) == 0 && (0u64 | 0u64) == 0) by (bit_vector);
        let t = (y % 64) as u32;
        assert(((0u64 as i64) >> t) as u64 == 0) by (bit_vector);
    }
    assert forall|x: u32| #![trigger sshr32(x, 0)] sshr32(x, 0) == x && (x << 0u32) == x && (x >> 0u32) == x by {
        assert(((x as i32) >> 0u32) as u32 == x && (x << 0u32) == x && (x >> 0u32) == x) by (bit_vector);
    }
    assert forall|x: u64| #![trigger sshr64(x, 0)] sshr64(x, 0) == x && (x << 0u64) == x && (x >> 0u64) == x by {
        assert(((x as i64) >> 0u32) as u64 == x && (x << 0u64) == x && (x >> 0u64) == x) by (bit_vector);
    }
}

/// `op` on what two integers evaluate to, when both do.
pub open spec fn apply_to(op: BinarySource, a: Option<ConstantSource>, b: Option<ConstantSource>) -> Option<ConstantSource> {
    match (a, b) {
        (Some(x), Some(y)) => apply_binary(op, x, y),
        _ => None,
    }
}

/// Whether two known constants have one width.
pub open spec fn same_width_constants(ca: Option<ConstantSource>, cb: Option<ConstantSource>) -> bool {
    match (ca, cb) {
        (Some(ConstantSource::Short(_)), Some(ConstantSource::Short(_))) => true,
        (Some(ConstantSource::Long(_)), Some(ConstantSource::Long(_))) => true,
        _ => false,
    }
}

/// Whether building `op(a, b)` takes the shortcut of `and` or `or` for a
/// constant zero operand: `and` then gives the other operand, `or` gives
/// the zero, where `x & 0` is zero and `x | 0` is `x`.
pub open spec fn bitwise_zero_shortcut(op: BinarySource, a: Integer, b: Integer, am: u32) -> bool {
    &&& (op == BinarySource::And || op == BinarySource::Or)
    &&& spec_operands(a, b, am) matches Ok((ca, cb)) && !same_width_constants(ca, cb) && (opt_zero(ca)
        || opt_zero(cb))
}

proof fn lemma_operands_evaluate(a: Integer, b: Integer, am: u32)
    ensures
        spec_operands(a, b, am) matches Ok((ca, cb)) ==> (ca matches Some(c) ==> eval(a) == Some(c)) && (
        cb matches Some(c) ==> eval(b) == Some(c)),
{
    lemma_constant_evaluates(a);
    lemma_constant_evaluates(b);
}

/// Constant folding of `op` keeps its meaning.
pub open spec fn folds_soundly(op: BinarySource, a: Integer, b: Integer, am: u32) -> bool {
    spec_binary(op, a, b, am, false) matches Ok(r) ==> (apply_to(op, eval(a), eval(b)) matches Some(v)
        ==> eval(r) == Some(v))
}

proof fn lemma_add_sound(a: Integer, b: Integer, am: u32)
    ensures
        folds_soundly(BinarySource::Add, a, b, am),
{
    lemma_operands_evaluate(a, b, am);
    if let (Some(x), Some(y)) = (eval(a), eval(b)) {
        if let (ConstantSource::Short(p), ConstantSource::Short(q)) = (x, y) {
            assert(((p + 0) % 0x1_0000_0000) as u32 == p && ((0 + q) % 0x1_0000_0000) as u32 == q);
        }
        if let (ConstantSource::Long(p), ConstantSource::Long(q)) = (x, y) {
            assert(((p + 0) % 0x1_0000_0000_0000_0000) as u64 == p && ((0 + q) % 0x1_0000_0000_0000_0000) as u64 == q);
        }
    }
}

proof fn lemma_sub_sound(a: Integer, b: Integer, am: u32)
    ensures
        folds_soundly(BinarySource::Sub, a, b, am),
{
    lemma_operands_evaluate(a, b, am);
}

proof fn lemma_mul_sound(a: Integer, b: Integer, am: u32)
    ensures
        folds_soundly(BinarySource::Mul, a, b, am),
{
    lemma_operands_evaluate(a, b, am);
    if let (Some(x), Some(y)) = (eval(a), eval(b)) {
        if let (ConstantSource::Short(p), ConstantSource::Short(q)) = (x, y) {
            assert((0 * q) % 0x1_0000_0000 == 0 && (p * 0) % 0x1_0000_0000 == 0);
            assert(((1 * q) % 0x1_0000_0000) as u32 == q && ((p * 1) % 0x1_0000_0000) as u32 == p);
        }
        if let (ConstantSource::Long(p), ConstantSource::Long(q)) = (x, y) {
            assert((0 * q) % 0x1_0000_0000_0000_0000 == 0 && (p * 0) % 0x1_0000_0000_0000_0000 == 0);
            assert(((1 * q) % 0x1_0000_0000_0000_0000) as u64 == q && ((p * 1) % 0x1_0000_0000_0000_0000) as u64 == p);
        }
    }
}

proof fn lemma_zero_divided(q: u32, r: u64)
    ensures
        q != 0 ==> sdiv32(0, q) == 0 && srem32(0, q) == 0 && 0u32 / q == 0 && 0u32 % q == 0,
        r != 0 ==> sdiv64(0, r) == 0 && srem64(0, r) == 0 && 0u64 / r == 0 && 0u64 % r == 0,
{
    assert(q != 0 ==> (q as i32) != 0) by (bit_vector);
    assert(r != 0 ==> (r as i64) != 0) by (bit_vector);
    assert(0u32 as i32 == 0) by (bit_vector);
    assert(0u64 as i64 == 0) by (bit_vector);
    assert(forall|d: int| d > 0 ==> #[trigger] (0int / d) == 0 && 0int % d == 0) by (nonlinear_arith);
}

proof fn lemma_division_sound(op: BinarySource, a: Integer, b: Integer, am: u32)
    requires
        op == BinarySource::SDiv || op == BinarySource::SRem || op == BinarySource::URem,
    ensures
        folds_soundly(op, a, b, am),
{
    lemma_operands_evaluate(a, b, am);
    if let (Some(ConstantSource::Short(p)), Some(ConstantSource::Short(q))) = (eval(a), eval(b)) {
        lemma_zero_divided(q, 1);
    }
    if let (Some(ConstantSource::Long(p)), Some(ConstantSource::Long(q))) = (eval(a), eval(b)) {
        lemma_zero_divided(1, q);
    }
}

proof fn lemma_bitwise_sound(op: BinarySource, a: Integer, b: Integer, am: u32)
    requires
        op == BinarySource::And || op == BinarySource::Or || op == BinarySource::Xor,
        !bitwise_zero_shortcut(op, a, b, am),
    ensures
        folds_soundly(op, a, b, am),
{
    lemma_operands_evaluate(a, b, am);
    if let (Some(ConstantSource::Short(p)), Some(ConstantSource::Short(q))) = (eval(a), eval(b)) {
        assert((p ^ 0u32) == p && (0u32 ^ q) == q) by (bit_vector);
    }
    if let (Some(ConstantSource::Long(p)), Some(ConstantSource::Long(q))) = (eval(a), eval(b)) {
        assert((p ^ 0u64) == p && (0u64 ^ q) == q) by (bit_vector);
    }
}

proof fn lemma_shift_sound(op: BinarySource, a: Integer, b: Integer, am: u32)
    requires
        op == BinarySource::Shl || op == BinarySource::SShr || op == BinarySource::Rotl || op
            == BinarySource::Rotr || op == BinarySource::UShr,
    ensures
        spec_binary(op, a, b, am, false) matches Ok(r) ==> (apply_to(op, eval(a), eval(b)) matches Some(v)
            ==> eval(r) == Some(v)),
{
    lemma_operands_evaluate(a, b, am);
    lemma_zero_shifts();
    if let Ok((ca, cb)) = spec_operands(a, b, am) {
        if let (Some(x), Some(y)) = (eval(a), eval(b)) {
            if let (ConstantSource::Short(p), ConstantSource::Short(q)) = (x, y) {
                assert(rotl32(0, q) == 0);
                assert(sshr32(p, 0) == p);
            }
            if let (ConstantSource::Long(p), ConstantSource::Long(q)) = (x, y) {
                assert(rotl64(0, q) == 0);
                assert(sshr64(p, 0) == p);
            }
        }
    }
}

#[verifier::rlimit(30)]
proof fn lemma_udiv_sound(a: Integer, b: Integer, am: u32)
    ensures
        spec_binary(BinarySource::UDiv, a, b, am, false) matches Ok(r) ==> (apply_to(
            BinarySource::UDiv,
            eval(a),
            eval(b),
        ) matches Some(v) ==> eval(r) == Some(v)),
{
    lemma_operands_evaluate(a, b, am);
    lemma_zero_shifts();
    reveal(spec_ushr);
    if let (Some(ConstantSource::Short(p)), Some(ConstantSource::Short(q))) = (eval(a), eval(b)) {
        lemma_zero_divided(q, 1);
        assert(p / 1 == p);
    }
    if let (Some(ConstantSource::Long(p)), Some(ConstantSource::Long(q))) = (eval(a), eval(b)) {
        lemma_zero_divided(1, q);
        assert(p / 1 == p);
    }
    if let Ok((ca, cb)) = spec_operands(a, b, am) {
        if !opt_zero(ca) && !opt_zero(cb) && !same_width_constants(ca, cb) {
            match cb {
                Some(ConstantSource::Short(y)) => {
                    lemma_power_of_two_exponent(y as nat);
                    if let Some(k) = power_of_two_exponent(y as nat) {
                        let kc = constant(ConstantSource::Short(k as u32));
                        lemma_constant_evaluates(kc);
                        lemma_operands_evaluate(a, kc, am);
                        lemma2_to64();
                        if k >= 32 {
                            if k > 32 {
                                lemma_pow2_strictly_increases(32, k);
                            }
                            assert(false);
                        }
                        if let Some(ConstantSource::Short(x)) = eval(a) {
                            lemma_u32_shr_is_div(x, k as u32);
                            assert(x >> ((k as u32) % 32) == x / y);
                        }
                    }
                },
                Some(ConstantSource::Long(y)) => {
                    lemma_power_of_two_exponent(y as nat);
                    if let Some(k) = power_of_two_exponent(y as nat) {
                        let kc = constant(ConstantSource::Long(k as u64));
                        lemma_constant_evaluates(kc);
                        lemma_operands_evaluate(a, kc, am);
                        lemma2_to64();
                        if k >= 64 {
                            if k > 64 {
                                lemma_pow2_strictly_increases(64, k);
                            }
                            assert(false);
                        }
                        if let Some(ConstantSource::Long(x)) = eval(a) {
                            lemma_u64_shr_is_div(x, k as u64);
                            assert(x >> ((k as u64) % 64) == x / y);
                        }
                    }
                },
                None => {},
            }
        }
    }
}

/// Constant folding keeps the meaning of integer expressions: whatever
/// `op(a, b)` builds evaluates to `op` applied to what `a` and `b` evaluate
/// to, wherever that is defined. The one exception is the shortcut that
/// `and` and `or` take for a constant zero operand.
pub proof fn lemma_binary_folding_sound(op: BinarySource, a: Integer, b: Integer, am: u32)
    requires
        !bitwise_zero_shortcut(op, a, b, am),
    ensures
        spec_binary(op, a, b, am, false) matches Ok(r) ==> (apply_to(op, eval(a), eval(b)) matches Some(v)
            ==> eval(r) == Some(v)),
{
    match op {
        BinarySource::Add => lemma_add_sound(a, b, am),
        BinarySource::Sub => lemma_sub_sound(a, b, am),
        BinarySource::Mul => lemma_mul_sound(a, b, am),
        BinarySource::SDiv | BinarySource::SRem | BinarySource::URem => lemma_division_sound(op, a, b, am),
        BinarySource::UDiv => lemma_udiv_sound(a, b, am),
        BinarySource::And | BinarySource::Or | BinarySource::Xor => lemma_bitwise_sound(op, a, b, am),
        _ => lemma_shift_sound(op, a, b, am),
    }
}

/// Folding the bit-counting operations keeps their meaning.
pub proof fn lemma_count_folding_sound(op: UnarySource, a: Integer)
    requires
        op == UnarySource::LeadingZeros || op == UnarySource::TrainlingZeros || op == UnarySource::BitCount,
    ensures
        spec_count(op, a) matches Ok(r) ==> (eval(a) matches Some(x) ==> eval(r) == Some(apply_unary(op, x))),
{
    lemma_constant_evaluates(a);
}

} // verus!

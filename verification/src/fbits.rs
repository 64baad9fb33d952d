//! Bit-level view of 64-bit IEEE-754 values. Float values travel through
//! the compiler and the evaluator as their bit patterns; classification
//! and comparison are computed here on the bits alone.

use vstd::prelude::*;
use crate::ir::FloatPred;

verus! {

/// Bit pattern of 1.0.
pub const F64_ONE_BITS: u64 = 0x3ff0000000000000;

/// Bit pattern of 0.0.
pub const F64_ZERO_BITS: u64 = 0;

/// The sign bit.
pub const F64_SIGN_BIT: u64 = 0x8000000000000000;

/// A NaN: exponent all ones, mantissa nonzero.
pub open spec fn spec_f64_is_nan(b: u64) -> bool {
    (b >> 52) & 0x7ff == 0x7ff && b & 0xfffffffffffff != 0
}

/// A zero of either sign.
pub open spec fn spec_f64_is_zero(b: u64) -> bool {
    b & 0x7fffffffffffffff == 0
}

/// The sign bit is set.
pub open spec fn spec_f64_is_neg(b: u64) -> bool {
    b & 0x8000000000000000 != 0
}

/// Ordered less-than on two non-NaN values, computed on the bits:
/// zeros of either sign are equal; otherwise opposite signs order by
/// sign, and equal signs order by magnitude, reversed for negatives.
pub open spec fn spec_f64_lt(a: u64, b: u64) -> bool {
    if spec_f64_is_zero(a) && spec_f64_is_zero(b) {
        false
    } else if spec_f64_is_neg(a) != spec_f64_is_neg(b) {
        spec_f64_is_neg(a)
    } else if !spec_f64_is_neg(a) {
        a < b
    } else {
        a > b
    }
}

/// Ordered equality on two non-NaN values: both zero, or the same bits.
pub open spec fn spec_f64_eq(a: u64, b: u64) -> bool {
    (spec_f64_is_zero(a) && spec_f64_is_zero(b)) || a == b
}

/// The meaning of a float comparison predicate on two bit patterns. The
/// unordered predicates hold when either operand is a NaN; the ordered
/// `Oge` fails then.
pub open spec fn spec_float_cmp(p: FloatPred, a: u64, b: u64) -> bool {
    let nan = spec_f64_is_nan(a) || spec_f64_is_nan(b);
    match p {
        FloatPred::Ult => nan || spec_f64_lt(a, b),
        FloatPred::Ugt => nan || spec_f64_lt(b, a),
        FloatPred::Ule => nan || spec_f64_lt(a, b) || spec_f64_eq(a, b),
        FloatPred::Oge => !nan && (spec_f64_lt(b, a) || spec_f64_eq(a, b)),
    }
}

/// Negation: flip the sign bit.
pub open spec fn spec_f64_neg(b: u64) -> u64 {
    b ^ 0x8000000000000000
}

/// Conversion of a one-bit integer to a float: 0 becomes 0.0, 1 becomes 1.0.
pub open spec fn spec_uitofp(v: u64) -> u64 {
    if v == 0 {
        F64_ZERO_BITS
    } else {
        F64_ONE_BITS
    }
}

/// Executable counterpart of `spec_f64_is_nan`.
pub fn f64_is_nan(b: u64) -> (r: bool)
    ensures
        r == spec_f64_is_nan(b),
{
    (b >> 52u64) & 0x7ff == 0x7ff && b & 0xfffffffffffff != 0
}

/// Executable counterpart of `spec_f64_is_zero`.
pub fn f64_is_zero(b: u64) -> (r: bool)
    ensures
        r == spec_f64_is_zero(b),
{
    b & 0x7fffffffffffffff == 0
}

/// Executable counterpart of `spec_f64_is_neg`.
pub fn f64_is_neg(b: u64) -> (r: bool)
    ensures
        r == spec_f64_is_neg(b),
{
    b & 0x8000000000000000 != 0
}

/// Executable counterpart of `spec_f64_lt`.
pub fn f64_lt(a: u64, b: u64) -> (r: bool)
    ensures
        r == spec_f64_lt(a, b),
{
    if f64_is_zero(a) && f64_is_zero(b) {
        false
    } else if f64_is_neg(a) != f64_is_neg(b) {
        f64_is_neg(a)
    } else if !f64_is_neg(a) {
        a < b
    } else {
        a > b
    }
}

/// Executable counterpart of `spec_f64_eq`.
pub fn f64_eq(a: u64, b: u64) -> (r: bool)
    ensures
        r == spec_f64_eq(a, b),
{
    (f64_is_zero(a) && f64_is_zero(b)) || a == b
}

/// Executable counterpart of `spec_float_cmp`.
pub fn float_cmp(p: FloatPred, a: u64, b: u64) -> (r: bool)
    ensures
        r == spec_float_cmp(p, a, b),
{
    let nan = f64_is_nan(a) || f64_is_nan(b);
    match p {
        FloatPred::Ult => nan || f64_lt(a, b),
        FloatPred::Ugt => nan || f64_lt(b, a),
        FloatPred::Ule => nan || f64_lt(a, b) || f64_eq(a, b),
        FloatPred::Oge => !nan && (f64_lt(b, a) || f64_eq(a, b)),
    }
}

/// Executable counterpart of `spec_f64_neg`.
pub fn f64_neg(b: u64) -> (r: u64)
    ensures
        r == spec_f64_neg(b),
{
    b ^ 0x8000000000000000
}

/// Executable counterpart of `spec_uitofp`.
pub fn uitofp(v: u64) -> (r: u64)
    ensures
        r == spec_uitofp(v),
{
    if v == 0 {
        F64_ZERO_BITS
    } else {
        F64_ONE_BITS
    }
}

} // verus!

//! Short-circuit operator dispatch for primitive values.
//!
//! Binary and unary operations on certain primitive types are resolved by the
//! logic here instead of deferring to the type system's metamethod lookup.
//! The numeric coercion rule: if both operands are integers, exact integer
//! arithmetic with overflow detection is used; if both are arithmetic
//! primitives but not both integers, both are coerced to binary64 floats.
//! Any other combination is "not applicable" (`None`), telling the caller to
//! fall back to metamethod dispatch.

use vstd::prelude::*;
use crate::variant::{Variant, FloatBits};
use crate::float;

verus! {

/// Recoverable evaluator error: never a panic, never silent wraparound.
#[derive(Debug, Clone, Copy, PartialEq, Eq, Structural)]
pub enum EvalError {
    /// Integer arithmetic left the representable range.
    OverflowError,
    /// A shift count was negative.
    NegativeShiftCount,
    /// Integer division or remainder by zero.
    DivideByZero,
}

pub type EvalResult<T> = Result<T, EvalError>;

/// Whether a value takes part in numeric coercion (integer or float).
pub fn is_arithmetic_primitive(value: &Variant) -> (r: bool)
    ensures
        r == value.spec_is_arithmetic_primitive(),
{
    matches!(value, Variant::Integer(..) | Variant::Float(..))
}

/// Whether a value takes part in bitwise short-circuiting (boolean or integer).
pub fn is_bitwise_primitive(value: &Variant) -> (r: bool)
    ensures
        r == value.spec_is_bitwise_primitive(),
{
    matches!(value, Variant::BoolTrue | Variant::BoolFalse | Variant::Integer(..))
}

/// The binary64 bit pattern an arithmetic primitive coerces to.
pub open spec fn spec_as_float_bits(v: Variant) -> u64
    recommends
        v.spec_is_arithmetic_primitive(),
{
    match v {
        Variant::Integer(value) => float::float_of_int(value),
        Variant::Float(bits) => bits.0,
        _ => 0,
    }
}

/// Coerces an arithmetic primitive to its binary64 bit pattern.
fn as_float_bits(v: &Variant) -> (r: u64)
    requires
        v.spec_is_arithmetic_primitive(),
    ensures
        r == spec_as_float_bits(*v),
{
    match v {
        Variant::Integer(value) => float::of_int(*value),
        Variant::Float(bits) => bits.0,
        _ => 0,
    }
}

// Unary operators

/// Arithmetic negation of `neg`'s operand: checked for integers (so negating
/// the minimum integer is an overflow), a sign-bit flip for floats.
pub open spec fn spec_eval_neg(operand: Variant) -> EvalResult<Variant> {
    match operand {
        Variant::Integer(value) => if value == i64::MIN {
            Err(EvalError::OverflowError)
        } else {
            Ok(Variant::Integer((-(value as int)) as i64))
        },
        Variant::Float(bits) => Ok(Variant::Float(FloatBits(float::spec_float_neg(bits.0)))),
        _ => Err(EvalError::OverflowError),
    }
}

/// Arithmetic negation of an arithmetic primitive.
pub fn eval_neg(operand: &Variant) -> (r: EvalResult<Variant>)
    requires
        operand.spec_is_arithmetic_primitive(),
    ensures
        r == spec_eval_neg(*operand),
{
    match operand {
        Variant::Integer(value) => {
            if *value == i64::MIN {
                Err(EvalError::OverflowError)
            } else {
                Ok(Variant::Integer(-*value))
            }
        },
        Variant::Float(bits) => Ok(Variant::Float(FloatBits(float::neg_bits(bits.0)))),
        _ => Err(EvalError::OverflowError),
    }
}

/// Unary plus: a no-op on arithmetic primitives.
pub fn eval_pos(operand: &Variant) -> (r: EvalResult<Variant>)
    requires
        operand.spec_is_arithmetic_primitive(),
    ensures
        r == Ok::<Variant, EvalError>(*operand),
{
    Ok(*operand)
}

/// Bitwise inversion of `inv`'s operand: logical negation for booleans,
/// two's-complement bitwise not for integers.
pub open spec fn spec_eval_inv(operand: Variant) -> Variant {
    match operand {
        Variant::BoolTrue => Variant::BoolFalse,
        Variant::BoolFalse => Variant::BoolTrue,
        Variant::Integer(value) => Variant::Integer((-1 - value as int) as i64),
        _ => Variant::Nil,
    }
}

/// Bitwise inversion of a bitwise primitive.
pub fn eval_inv(operand: &Variant) -> (r: EvalResult<Variant>)
    requires
        operand.spec_is_bitwise_primitive(),
    ensures
        r == Ok::<Variant, EvalError>(spec_eval_inv(*operand)),
{
    match operand {
        Variant::BoolTrue => Ok(Variant::BoolFalse),
        Variant::BoolFalse => Ok(Variant::BoolTrue),
        Variant::Integer(value) => Ok(Variant::Integer(-1 - *value)),
        _ => Ok(Variant::Nil),
    }
}

/// Logical not: negates the operand's truth value; defined on every value.
pub fn eval_not(operand: &Variant) -> (r: EvalResult<Variant>)
    ensures
        r == Ok::<Variant, EvalError>(Variant::from_bool(!operand.spec_truth_value())),
{
    Ok(Variant::from_bool(!operand.truth_value()))
}

// Equality (always fully resolved, never falls back)

/// Equality of two values. `Nil` never equals anything, itself included;
/// the empty tuple equals only itself; same-type primitives compare
/// structurally; mixed integer/float compares by float coercion; anything
/// else (heap objects in particular) compares unequal here.
pub open spec fn spec_eval_eq(lhs: Variant, rhs: Variant) -> bool {
    if lhs is Integer && rhs is Integer {
        lhs->Integer_0 == rhs->Integer_0
    } else if lhs.spec_is_arithmetic_primitive() && rhs.spec_is_arithmetic_primitive() {
        float::spec_float_eq(spec_as_float_bits(lhs), spec_as_float_bits(rhs))
    } else if lhs is EmptyTuple && rhs is EmptyTuple {
        true
    } else if lhs is BoolTrue && rhs is BoolTrue {
        true
    } else if lhs is BoolFalse && rhs is BoolFalse {
        true
    } else if lhs is InternStr && rhs is InternStr {
        lhs->InternStr_0 == rhs->InternStr_0
    } else {
        false
    }
}

/// Equality of two values.
pub fn eval_eq(lhs: &Variant, rhs: &Variant) -> (r: bool)
    ensures
        r == spec_eval_eq(*lhs, *rhs),
{
    match (*lhs, *rhs) {
        (Variant::Integer(lhs_value), Variant::Integer(rhs_value)) => lhs_value == rhs_value,
        (Variant::EmptyTuple, Variant::EmptyTuple) => true,
        (Variant::BoolTrue, Variant::BoolTrue) => true,
        (Variant::BoolFalse, Variant::BoolFalse) => true,
        (Variant::InternStr(lhs_value), Variant::InternStr(rhs_value)) => lhs_value == rhs_value,
        _ => {
            if is_arithmetic_primitive(lhs) && is_arithmetic_primitive(rhs) {
                float::eq_bits(as_float_bits(lhs), as_float_bits(rhs))
            } else {
                false
            }
        },
    }
}

/// Inequality: the exact negation of equality.
pub fn eval_ne(lhs: &Variant, rhs: &Variant) -> (r: bool)
    ensures
        r == !spec_eval_eq(*lhs, *rhs),
{
    !eval_eq(lhs, rhs)
}

// Arithmetic

/// Checked integer addition.
pub open spec fn spec_int_add(a: i64, b: i64) -> EvalResult<Option<Variant>> {
    if i64::MIN <= a + b <= i64::MAX {
        Ok(Some(Variant::Integer((a + b) as i64)))
    } else {
        Err(EvalError::OverflowError)
    }
}

/// Checked integer subtraction.
pub open spec fn spec_int_sub(a: i64, b: i64) -> EvalResult<Option<Variant>> {
    if i64::MIN <= a - b <= i64::MAX {
        Ok(Some(Variant::Integer((a - b) as i64)))
    } else {
        Err(EvalError::OverflowError)
    }
}

/// Checked integer multiplication.
pub open spec fn spec_int_mul(a: i64, b: i64) -> EvalResult<Option<Variant>> {
    if i64::MIN <= a * b <= i64::MAX {
        Ok(Some(Variant::Integer((a * b) as i64)))
    } else {
        Err(EvalError::OverflowError)
    }
}

/// Checked integer division (truncating): dividing by zero is an error,
/// and the one overflowing case (minimum / -1) is an overflow.
pub open spec fn spec_int_div(a: i64, b: i64) -> EvalResult<Option<Variant>> {
    if b == 0 {
        Err(EvalError::DivideByZero)
    } else {
        match a.checked_div(b) {
            Some(q) => Ok(Some(Variant::Integer(q))),
            None => Err(EvalError::OverflowError),
        }
    }
}

/// Checked integer remainder (truncating): remainder by zero is an error,
/// and the one overflowing case (minimum % -1) is an overflow.
pub open spec fn spec_int_mod(a: i64, b: i64) -> EvalResult<Option<Variant>> {
    if b == 0 {
        Err(EvalError::DivideByZero)
    } else {
        match a.checked_rem(b) {
            Some(q) => Ok(Some(Variant::Integer(q))),
            None => Err(EvalError::OverflowError),
        }
    }
}

/// Result of a binary arithmetic operator under the numeric coercion rule.
/// `int_case` gives the integer/integer outcome; `float_bits` the coerced
/// binary64 outcome.
pub open spec fn spec_arith_result(
    lhs: Variant,
    rhs: Variant,
    int_case: EvalResult<Option<Variant>>,
    float_bits: u64,
) -> EvalResult<Option<Variant>> {
    if lhs is Integer && rhs is Integer {
        int_case
    } else if lhs.spec_is_arithmetic_primitive() && rhs.spec_is_arithmetic_primitive() {
        Ok(Some(Variant::Float(FloatBits(float_bits))))
    } else {
        Ok(None)
    }
}

/// Addition under the numeric coercion rule.
pub open spec fn spec_eval_add(lhs: Variant, rhs: Variant) -> EvalResult<Option<Variant>> {
    spec_arith_result(
        lhs,
        rhs,
        spec_int_add(lhs->Integer_0, rhs->Integer_0),
        float::float_add_bits(spec_as_float_bits(lhs), spec_as_float_bits(rhs)),
    )
}

/// Addition of two primitives, `None` when not applicable.
pub fn eval_add(lhs: &Variant, rhs: &Variant) -> (r: EvalResult<Option<Variant>>)
    ensures
        r == spec_eval_add(*lhs, *rhs),
{
    match (*lhs, *rhs) {
        (Variant::Integer(lhs_value), Variant::Integer(rhs_value)) => {
            match lhs_value.checked_add(rhs_value) {
                Some(value) => Ok(Some(Variant::Integer(value))),
                None => Err(EvalError::OverflowError),
            }
        },
        _ => {
            if is_arithmetic_primitive(lhs) && is_arithmetic_primitive(rhs) {
                Ok(Some(Variant::Float(FloatBits(float::add_bits(as_float_bits(lhs), as_float_bits(rhs))))))
            } else {
                Ok(None)
            }
        },
    }
}

/// Subtraction under the numeric coercion rule.
pub open spec fn spec_eval_sub(lhs: Variant, rhs: Variant) -> EvalResult<Option<Variant>> {
    spec_arith_result(
        lhs,
        rhs,
        spec_int_sub(lhs->Integer_0, rhs->Integer_0),
        float::float_sub_bits(spec_as_float_bits(lhs), spec_as_float_bits(rhs)),
    )
}

/// Subtraction of two primitives, `None` when not applicable.
pub fn eval_sub(lhs: &Variant, rhs: &Variant) -> (r: EvalResult<Option<Variant>>)
    ensures
        r == spec_eval_sub(*lhs, *rhs),
{
    match (*lhs, *rhs) {
        (Variant::Integer(lhs_value), Variant::Integer(rhs_value)) => {
            match lhs_value.checked_sub(rhs_value) {
                Some(value) => Ok(Some(Variant::Integer(value))),
                None => Err(EvalError::OverflowError),
            }
        },
        _ => {
            if is_arithmetic_primitive(lhs) && is_arithmetic_primitive(rhs) {
                Ok(Some(Variant::Float(FloatBits(float::sub_bits(as_float_bits(lhs), as_float_bits(rhs))))))
            } else {
                Ok(None)
            }
        },
    }
}

/// Multiplication under the numeric coercion rule.
pub open spec fn spec_eval_mul(lhs: Variant, rhs: Variant) -> EvalResult<Option<Variant>> {
    spec_arith_result(
        lhs,
        rhs,
        spec_int_mul(lhs->Integer_0, rhs->Integer_0),
        float::float_mul_bits(spec_as_float_bits(lhs), spec_as_float_bits(rhs)),
    )
}

/// Multiplication of two primitives, `None` when not applicable.
pub fn eval_mul(lhs: &Variant, rhs: &Variant) -> (r: EvalResult<Option<Variant>>)
    ensures
        r == spec_eval_mul(*lhs, *rhs),
{
    match (*lhs, *rhs) {
        (Variant::Integer(lhs_value), Variant::Integer(rhs_value)) => {
            match lhs_value.checked_mul(rhs_value) {
                Some(value) => Ok(Some(Variant::Integer(value))),
                None => Err(EvalError::OverflowError),
            }
        },
        _ => {
            if is_arithmetic_primitive(lhs) && is_arithmetic_primitive(rhs) {
                Ok(Some(Variant::Float(FloatBits(float::mul_bits(as_float_bits(lhs), as_float_bits(rhs))))))
            } else {
                Ok(None)
            }
        },
    }
}

/// Division under the numeric coercion rule.
pub open spec fn spec_eval_div(lhs: Variant, rhs: Variant) -> EvalResult<Option<Variant>> {
    spec_arith_result(
        lhs,
        rhs,
        spec_int_div(lhs->Integer_0, rhs->Integer_0),
        float::float_div_bits(spec_as_float_bits(lhs), spec_as_float_bits(rhs)),
    )
}

/// Division of two primitives, `None` when not applicable.
pub fn eval_div(lhs: &Variant, rhs: &Variant) -> (r: EvalResult<Option<Variant>>)
    ensures
        r == spec_eval_div(*lhs, *rhs),
{
    match (*lhs, *rhs) {
        (Variant::Integer(lhs_value), Variant::Integer(rhs_value)) => {
            if rhs_value == 0 {
                Err(EvalError::DivideByZero)
            } else {
                match lhs_value.checked_div(rhs_value) {
                    Some(value) => Ok(Some(Variant::Integer(value))),
                    None => Err(EvalError::OverflowError),
                }
            }
        },
        _ => {
            if is_arithmetic_primitive(lhs) && is_arithmetic_primitive(rhs) {
                Ok(Some(Variant::Float(FloatBits(float::div_bits(as_float_bits(lhs), as_float_bits(rhs))))))
            } else {
                Ok(None)
            }
        },
    }
}

/// Remainder under the numeric coercion rule.
pub open spec fn spec_eval_mod(lhs: Variant, rhs: Variant) -> EvalResult<Option<Variant>> {
    spec_arith_result(
        lhs,
        rhs,
        spec_int_mod(lhs->Integer_0, rhs->Integer_0),
        float::float_rem_bits(spec_as_float_bits(lhs), spec_as_float_bits(rhs)),
    )
}

/// Remainder of two primitives, `None` when not applicable.
pub fn eval_mod(lhs: &Variant, rhs: &Variant) -> (r: EvalResult<Option<Variant>>)
    ensures
        r == spec_eval_mod(*lhs, *rhs),
{
    match (*lhs, *rhs) {
        (Variant::Integer(lhs_value), Variant::Integer(rhs_value)) => {
            if rhs_value == 0 {
                Err(EvalError::DivideByZero)
            } else {
                match lhs_value.checked_rem(rhs_value) {
                    Some(value) => Ok(Some(Variant::Integer(value))),
                    None => Err(EvalError::OverflowError),
                }
            }
        },
        _ => {
            if is_arithmetic_primitive(lhs) && is_arithmetic_primitive(rhs) {
                Ok(Some(Variant::Float(FloatBits(float::rem_bits(as_float_bits(lhs), as_float_bits(rhs))))))
            } else {
                Ok(None)
            }
        },
    }
}

// Comparison (LT/LE directly, GE/GT as their negations)

/// Less-than under the numeric coercion rule, `None` when not applicable.
pub open spec fn spec_eval_lt(lhs: Variant, rhs: Variant) -> Option<bool> {
    if lhs is Integer && rhs is Integer {
        Some(lhs->Integer_0 < rhs->Integer_0)
    } else if lhs.spec_is_arithmetic_primitive() && rhs.spec_is_arithmetic_primitive() {
        Some(float::spec_float_lt(spec_as_float_bits(lhs), spec_as_float_bits(rhs)))
    } else {
        None
    }
}

/// Less-than of two primitives, `None` when not applicable.
pub fn eval_lt(lhs: &Variant, rhs: &Variant) -> (r: Option<bool>)
    ensures
        r == spec_eval_lt(*lhs, *rhs),
{
    match (*lhs, *rhs) {
        (Variant::Integer(lhs_value), Variant::Integer(rhs_value)) => Some(lhs_value < rhs_value),
        _ => {
            if is_arithmetic_primitive(lhs) && is_arithmetic_primitive(rhs) {
                Some(float::lt_bits(as_float_bits(lhs), as_float_bits(rhs)))
            } else {
                None
            }
        },
    }
}

/// Less-than-or-equal under the numeric coercion rule.
pub open spec fn spec_eval_le(lhs: Variant, rhs: Variant) -> Option<bool> {
    if lhs is Integer && rhs is Integer {
        Some(lhs->Integer_0 <= rhs->Integer_0)
    } else if lhs.spec_is_arithmetic_primitive() && rhs.spec_is_arithmetic_primitive() {
        Some(float::spec_float_le(spec_as_float_bits(lhs), spec_as_float_bits(rhs)))
    } else {
        None
    }
}

/// Less-than-or-equal of two primitives, `None` when not applicable.
pub fn eval_le(lhs: &Variant, rhs: &Variant) -> (r: Option<bool>)
    ensures
        r == spec_eval_le(*lhs, *rhs),
{
    match (*lhs, *rhs) {
        (Variant::Integer(lhs_value), Variant::Integer(rhs_value)) => Some(lhs_value <= rhs_value),
        _ => {
            if is_arithmetic_primitive(lhs) && is_arithmetic_primitive(rhs) {
                Some(float::le_bits(as_float_bits(lhs), as_float_bits(rhs)))
            } else {
                None
            }
        },
    }
}

/// Greater-or-equal: the logical negation of less-than, so it inherits
/// less-than's "not applicable" propagation.
pub fn eval_ge(lhs: &Variant, rhs: &Variant) -> (r: Option<bool>)
    ensures
        r == match spec_eval_lt(*lhs, *rhs) {
            Some(b) => Some(!b),
            None => None::<bool>,
        },
{
    match eval_lt(lhs, rhs) {
        Some(b) => Some(!b),
        None => None,
    }
}

/// Greater-than: the logical negation of less-than-or-equal, so it inherits
/// its "not applicable" propagation.
pub fn eval_gt(lhs: &Variant, rhs: &Variant) -> (r: Option<bool>)
    ensures
        r == match spec_eval_le(*lhs, *rhs) {
            Some(b) => Some(!b),
            None => None::<bool>,
        },
{
    match eval_le(lhs, rhs) {
        Some(b) => Some(!b),
        None => None,
    }
}


// Bitwise operations (booleans combine logically, integers by bits; a mixed
// boolean/integer pair is not short-circuited and falls back)

/// Bitwise AND under the bitwise policy, `None` when not applicable.
pub open spec fn spec_eval_and(lhs: Variant, rhs: Variant) -> Option<Variant> {
    if (lhs is BoolTrue || lhs is BoolFalse) && (rhs is BoolTrue || rhs is BoolFalse) {
        Some(Variant::spec_from_bool(lhs is BoolTrue && rhs is BoolTrue))
    } else if lhs is Integer && rhs is Integer {
        Some(Variant::Integer(lhs->Integer_0 & rhs->Integer_0))
    } else {
        None
    }
}

/// Bitwise AND of two bitwise primitives of the same kind.
pub fn eval_and(lhs: &Variant, rhs: &Variant) -> (r: Option<Variant>)
    ensures
        r == spec_eval_and(*lhs, *rhs),
{
    match (*lhs, *rhs) {
        (Variant::Integer(a), Variant::Integer(b)) => Some(Variant::Integer(a & b)),
        (Variant::BoolTrue, Variant::BoolTrue) => Some(Variant::BoolTrue),
        (Variant::BoolTrue, Variant::BoolFalse) => Some(Variant::BoolFalse),
        (Variant::BoolFalse, Variant::BoolTrue) => Some(Variant::BoolFalse),
        (Variant::BoolFalse, Variant::BoolFalse) => Some(Variant::BoolFalse),
        _ => None,
    }
}

/// Bitwise XOR under the bitwise policy, `None` when not applicable.
pub open spec fn spec_eval_xor(lhs: Variant, rhs: Variant) -> Option<Variant> {
    if (lhs is BoolTrue || lhs is BoolFalse) && (rhs is BoolTrue || rhs is BoolFalse) {
        Some(Variant::spec_from_bool((lhs is BoolTrue) != (rhs is BoolTrue)))
    } else if lhs is Integer && rhs is Integer {
        Some(Variant::Integer(lhs->Integer_0 ^ rhs->Integer_0))
    } else {
        None
    }
}

/// Bitwise XOR of two bitwise primitives of the same kind.
pub fn eval_xor(lhs: &Variant, rhs: &Variant) -> (r: Option<Variant>)
    ensures
        r == spec_eval_xor(*lhs, *rhs),
{
    match (*lhs, *rhs) {
        (Variant::Integer(a), Variant::Integer(b)) => Some(Variant::Integer(a ^ b)),
        (Variant::BoolTrue, Variant::BoolTrue) => Some(Variant::BoolFalse),
        (Variant::BoolTrue, Variant::BoolFalse) => Some(Variant::BoolTrue),
        (Variant::BoolFalse, Variant::BoolTrue) => Some(Variant::BoolTrue),
        (Variant::BoolFalse, Variant::BoolFalse) => Some(Variant::BoolFalse),
        _ => None,
    }
}

/// Bitwise OR under the bitwise policy, `None` when not applicable.
pub open spec fn spec_eval_or(lhs: Variant, rhs: Variant) -> Option<Variant> {
    if (lhs is BoolTrue || lhs is BoolFalse) && (rhs is BoolTrue || rhs is BoolFalse) {
        Some(Variant::spec_from_bool(lhs is BoolTrue || rhs is BoolTrue))
    } else if lhs is Integer && rhs is Integer {
        Some(Variant::Integer(lhs->Integer_0 | rhs->Integer_0))
    } else {
        None
    }
}

/// Bitwise OR of two bitwise primitives of the same kind.
pub fn eval_or(lhs: &Variant, rhs: &Variant) -> (r: Option<Variant>)
    ensures
        r == spec_eval_or(*lhs, *rhs),
{
    match (*lhs, *rhs) {
        (Variant::Integer(a), Variant::Integer(b)) => Some(Variant::Integer(a | b)),
        (Variant::BoolTrue, Variant::BoolTrue) => Some(Variant::BoolTrue),
        (Variant::BoolTrue, Variant::BoolFalse) => Some(Variant::BoolTrue),
        (Variant::BoolFalse, Variant::BoolTrue) => Some(Variant::BoolTrue),
        (Variant::BoolFalse, Variant::BoolFalse) => Some(Variant::BoolFalse),
        _ => None,
    }
}

// Bit shifts (the left operand's 0/1 bit value shifts; a boolean count of
// true shifts by one, false is a no-op returning the operand unchanged)

/// Checked left shift of an integer bit pattern: a negative count is an
/// error whatever the operand, a count at or past the integer width is an
/// overflow, and an in-range count wraps (shifted-out bits are dropped).
pub open spec fn spec_int_shl(a: i64, s: i64) -> EvalResult<Option<Variant>> {
    if s < 0 {
        Err(EvalError::NegativeShiftCount)
    } else if s >= 64 {
        Err(EvalError::OverflowError)
    } else {
        Ok(Some(Variant::Integer(a.wrapping_shl(s as u32))))
    }
}

/// Checked arithmetic right shift of an integer bit pattern.
pub open spec fn spec_int_shr(a: i64, s: i64) -> EvalResult<Option<Variant>> {
    if s < 0 {
        Err(EvalError::NegativeShiftCount)
    } else if s >= 64 {
        Err(EvalError::OverflowError)
    } else {
        Ok(Some(Variant::Integer(a.wrapping_shr(s as u32))))
    }
}

/// Left shift under the shift policy: the left operand must be a bitwise
/// primitive; an integer count shifts, a count of `true` shifts by one, and
/// a count of `false` returns the operand unchanged.
pub open spec fn spec_eval_shl(lhs: Variant, rhs: Variant) -> EvalResult<Option<Variant>> {
    if !lhs.spec_is_bitwise_primitive() {
        Ok(None)
    } else {
        match rhs {
            Variant::Integer(s) => spec_int_shl(lhs.spec_bit_value(), s),
            Variant::BoolTrue => spec_int_shl(lhs.spec_bit_value(), 1),
            Variant::BoolFalse => Ok(Some(lhs)),
            _ => Ok(None),
        }
    }
}

/// Left shift of a bitwise primitive, `None` when not applicable.
pub fn eval_shl(lhs: &Variant, rhs: &Variant) -> (r: EvalResult<Option<Variant>>)
    ensures
        r == spec_eval_shl(*lhs, *rhs),
{
    if !is_bitwise_primitive(lhs) {
        return Ok(None);
    }
    match *rhs {
        Variant::Integer(s) => {
            if s < 0 {
                Err(EvalError::NegativeShiftCount)
            } else if s >= 64 {
                Err(EvalError::OverflowError)
            } else {
                Ok(Some(Variant::Integer(lhs.bit_value().wrapping_shl(s as u32))))
            }
        },
        Variant::BoolTrue => Ok(Some(Variant::Integer(lhs.bit_value().wrapping_shl(1)))),
        Variant::BoolFalse => Ok(Some(*lhs)),
        _ => Ok(None),
    }
}

/// Right shift under the shift policy (arithmetic shift for integers).
pub open spec fn spec_eval_shr(lhs: Variant, rhs: Variant) -> EvalResult<Option<Variant>> {
    if !lhs.spec_is_bitwise_primitive() {
        Ok(None)
    } else {
        match rhs {
            Variant::Integer(s) => spec_int_shr(lhs.spec_bit_value(), s),
            Variant::BoolTrue => spec_int_shr(lhs.spec_bit_value(), 1),
            Variant::BoolFalse => Ok(Some(lhs)),
            _ => Ok(None),
        }
    }
}

/// Right shift of a bitwise primitive, `None` when not applicable.
pub fn eval_shr(lhs: &Variant, rhs: &Variant) -> (r: EvalResult<Option<Variant>>)
    ensures
        r == spec_eval_shr(*lhs, *rhs),
{
    if !is_bitwise_primitive(lhs) {
        return Ok(None);
    }
    match *rhs {
        Variant::Integer(s) => {
            if s < 0 {
                Err(EvalError::NegativeShiftCount)
            } else if s >= 64 {
                Err(EvalError::OverflowError)
            } else {
                Ok(Some(Variant::Integer(lhs.bit_value().wrapping_shr(s as u32))))
            }
        },
        Variant::BoolTrue => Ok(Some(Variant::Integer(lhs.bit_value().wrapping_shr(1)))),
        Variant::BoolFalse => Ok(Some(*lhs)),
        _ => Ok(None),
    }
}

} // verus!
//! Direct evaluation of literal atoms and operator applications over the
//! short-circuit dispatch: the constant-folding face of the evaluator, for
//! callers that hold values rather than a running bytecode machine.

use vstd::prelude::*;
use crate::ast::{Arithmetic, Atom, BinaryOp, Bitwise, Comparison, Shift, UnaryOp};
use crate::ops;
use crate::ops::{EvalError, EvalResult};
use crate::variant::Variant;

verus! {

/// The value a literal atom evaluates to: the four dedicated literals map
/// to their variants, numeric and string literals carry their payloads, and
/// anything needing name resolution or recursion evaluates to `None` here.
pub fn eval_literal_atom(atom: &Atom) -> (r: Option<Variant>)
    ensures
        r == match *atom {
            Atom::Nil => Some(Variant::Nil),
            Atom::EmptyTuple => Some(Variant::EmptyTuple),
            Atom::BooleanLiteral(b) => Some(Variant::spec_from_bool(b)),
            Atom::IntegerLiteral(v) => Some(Variant::Integer(v)),
            Atom::FloatLiteral(b) => Some(Variant::Float(b)),
            Atom::StringLiteral(s) => Some(Variant::InternStr(s)),
            _ => None::<Variant>,
        },
{
    match atom {
        Atom::Nil => Some(Variant::Nil),
        Atom::EmptyTuple => Some(Variant::EmptyTuple),
        Atom::BooleanLiteral(b) => Some(Variant::from_bool(*b)),
        Atom::IntegerLiteral(v) => Some(Variant::Integer(*v)),
        Atom::FloatLiteral(b) => Some(Variant::Float(*b)),
        Atom::StringLiteral(s) => Some(Variant::InternStr(*s)),
        _ => None,
    }
}

/// What a binary operator application evaluates to under the short-circuit
/// rules: each category routes to its evaluator, comparisons and equality
/// wrap their booleans, and short-circuit logical operators (which need
/// control flow, not a value rule) are never applicable here.
pub open spec fn spec_apply_binary_op(op: BinaryOp, lhs: Variant, rhs: Variant) -> EvalResult<
    Option<Variant>,
> {
    match op {
        BinaryOp::Logical(_) => Ok(None),
        BinaryOp::Arithmetic(a) => match a {
            Arithmetic::Mul => ops::spec_eval_mul(lhs, rhs),
            Arithmetic::Div => ops::spec_eval_div(lhs, rhs),
            Arithmetic::Mod => ops::spec_eval_mod(lhs, rhs),
            Arithmetic::Add => ops::spec_eval_add(lhs, rhs),
            Arithmetic::Sub => ops::spec_eval_sub(lhs, rhs),
        },
        BinaryOp::Bitwise(b) => match b {
            Bitwise::And => Ok(ops::spec_eval_and(lhs, rhs)),
            Bitwise::Xor => Ok(ops::spec_eval_xor(lhs, rhs)),
            Bitwise::Or => Ok(ops::spec_eval_or(lhs, rhs)),
        },
        BinaryOp::Shift(sh) => match sh {
            Shift::Left => ops::spec_eval_shl(lhs, rhs),
            Shift::Right => ops::spec_eval_shr(lhs, rhs),
        },
        BinaryOp::Comparison(c) => match c {
            Comparison::LT => Ok(
                match ops::spec_eval_lt(lhs, rhs) {
                    Some(b) => Some(Variant::spec_from_bool(b)),
                    None => None,
                },
            ),
            Comparison::LE => Ok(
                match ops::spec_eval_le(lhs, rhs) {
                    Some(b) => Some(Variant::spec_from_bool(b)),
                    None => None,
                },
            ),
            Comparison::GE => Ok(
                match ops::spec_eval_lt(lhs, rhs) {
                    Some(b) => Some(Variant::spec_from_bool(!b)),
                    None => None,
                },
            ),
            Comparison::GT => Ok(
                match ops::spec_eval_le(lhs, rhs) {
                    Some(b) => Some(Variant::spec_from_bool(!b)),
                    None => None,
                },
            ),
            Comparison::EQ => Ok(Some(Variant::spec_from_bool(ops::spec_eval_eq(lhs, rhs)))),
            Comparison::NE => Ok(Some(Variant::spec_from_bool(!ops::spec_eval_eq(lhs, rhs)))),
        },
    }
}

/// Applies a binary operator to two values by the short-circuit rules.
pub fn apply_binary_op(op: BinaryOp, lhs: &Variant, rhs: &Variant) -> (r: EvalResult<
    Option<Variant>,
>)
    ensures
        r == spec_apply_binary_op(op, *lhs, *rhs),
{
    match op {
        BinaryOp::Logical(_) => Ok(None),
        BinaryOp::Arithmetic(a) => match a {
            Arithmetic::Mul => ops::eval_mul(lhs, rhs),
            Arithmetic::Div => ops::eval_div(lhs, rhs),
            Arithmetic::Mod => ops::eval_mod(lhs, rhs),
            Arithmetic::Add => ops::eval_add(lhs, rhs),
            Arithmetic::Sub => ops::eval_sub(lhs, rhs),
        },
        BinaryOp::Bitwise(b) => match b {
            Bitwise::And => Ok(ops::eval_and(lhs, rhs)),
            Bitwise::Xor => Ok(ops::eval_xor(lhs, rhs)),
            Bitwise::Or => Ok(ops::eval_or(lhs, rhs)),
        },
        BinaryOp::Shift(sh) => match sh {
            Shift::Left => ops::eval_shl(lhs, rhs),
            Shift::Right => ops::eval_shr(lhs, rhs),
        },
        BinaryOp::Comparison(c) => match c {
            Comparison::LT => Ok(
                match ops::eval_lt(lhs, rhs) {
                    Some(b) => Some(Variant::from_bool(b)),
                    None => None,
                },
            ),
            Comparison::LE => Ok(
                match ops::eval_le(lhs, rhs) {
                    Some(b) => Some(Variant::from_bool(b)),
                    None => None,
                },
            ),
            Comparison::GE => Ok(
                match ops::eval_ge(lhs, rhs) {
                    Some(b) => Some(Variant::from_bool(b)),
                    None => None,
                },
            ),
            Comparison::GT => Ok(
                match ops::eval_gt(lhs, rhs) {
                    Some(b) => Some(Variant::from_bool(b)),
                    None => None,
                },
            ),
            Comparison::EQ => Ok(Some(Variant::from_bool(ops::eval_eq(lhs, rhs)))),
            Comparison::NE => Ok(Some(Variant::from_bool(ops::eval_ne(lhs, rhs)))),
        },
    }
}

/// What a unary operator application evaluates to: negation and plus on
/// arithmetic primitives, inversion on bitwise primitives, logical not on
/// everything; other operand kinds are not applicable here.
pub open spec fn spec_apply_unary_op(op: UnaryOp, operand: Variant) -> EvalResult<Option<Variant>> {
    match op {
        UnaryOp::Not => Ok(Some(Variant::spec_from_bool(!operand.spec_truth_value()))),
        UnaryOp::Neg => if operand.spec_is_arithmetic_primitive() {
            match ops::spec_eval_neg(operand) {
                Ok(v) => Ok(Some(v)),
                Err(e) => Err(e),
            }
        } else {
            Ok(None)
        },
        UnaryOp::Pos => if operand.spec_is_arithmetic_primitive() {
            Ok(Some(operand))
        } else {
            Ok(None)
        },
        UnaryOp::Inv => if operand.spec_is_bitwise_primitive() {
            Ok(Some(ops::spec_eval_inv(operand)))
        } else {
            Ok(None)
        },
    }
}

/// Applies a unary operator to a value by the short-circuit rules.
pub fn apply_unary_op(op: UnaryOp, operand: &Variant) -> (r: EvalResult<Option<Variant>>)
    ensures
        r == spec_apply_unary_op(op, *operand),
{
    match op {
        UnaryOp::Not => {
            match ops::eval_not(operand) {
                Ok(v) => Ok(Some(v)),
                Err(e) => Err(e),
            }
        },
        UnaryOp::Neg => {
            if ops::is_arithmetic_primitive(operand) {
                match ops::eval_neg(operand) {
                    Ok(v) => Ok(Some(v)),
                    Err(e) => Err(e),
                }
            } else {
                Ok(None)
            }
        },
        UnaryOp::Pos => {
            if ops::is_arithmetic_primitive(operand) {
                match ops::eval_pos(operand) {
                    Ok(v) => Ok(Some(v)),
                    Err(e) => Err(e),
                }
            } else {
                Ok(None)
            }
        },
        UnaryOp::Inv => {
            if ops::is_bitwise_primitive(operand) {
                match ops::eval_inv(operand) {
                    Ok(v) => Ok(Some(v)),
                    Err(e) => Err(e),
                }
            } else {
                Ok(None)
            }
        },
    }
}

} // verus!

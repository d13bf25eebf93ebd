//! Tagged-union runtime value type.
//!
//! Values are immutable once constructed: primitives have copy semantics,
//! heap objects are shared through [`crate::gc::GC`] handles.  Floating-point
//! values are carried as their raw IEEE 754 binary64 bit pattern; all
//! arithmetic on them is delegated to a software float implementation (see
//! [`crate::float`]), so the value model itself stays within plain integers.

use vstd::prelude::*;
use crate::gc::GC;

verus! {

/// Handle to an interned string: an index into a [`crate::strings::StringInterner`].
#[derive(Debug, Clone, Copy, PartialEq, Eq, Structural, Hash)]
pub struct InternSymbol(pub u32);

/// An IEEE 754 binary64 value, carried as its raw bit pattern.
#[derive(Debug, Clone, Copy, PartialEq, Eq, Structural, Hash)]
pub struct FloatBits(pub u64);

/// Runtime value: a tagged union over the primitive kinds of the language
/// plus handles for interned strings and garbage-collected objects.
#[derive(Debug, Clone, Copy, PartialEq, Eq, Structural)]
pub enum Variant {
    Nil,
    EmptyTuple,
    BoolTrue,
    BoolFalse,
    Integer(i64),
    Float(FloatBits),
    InternStr(InternSymbol),
    Obj(GC),
}

impl Variant {
    /// Wraps a `bool` in the dedicated boolean variants.
    pub open spec fn spec_from_bool(value: bool) -> Variant {
        if value { Variant::BoolTrue } else { Variant::BoolFalse }
    }

    /// Wraps a `bool` in the dedicated boolean variants.
    #[verifier::when_used_as_spec(spec_from_bool)]
    pub fn from_bool(value: bool) -> (r: Variant)
        ensures
            r == (if value { Variant::BoolTrue } else { Variant::BoolFalse }),
    {
        if value { Variant::BoolTrue } else { Variant::BoolFalse }
    }

    /// Truthiness of a value: only `Nil` and `false` are falsey.
    pub open spec fn spec_truth_value(self) -> bool {
        !(self is Nil || self is BoolFalse)
    }

    /// Truthiness of a value: only `Nil` and `false` are falsey.
    pub fn truth_value(&self) -> (r: bool)
        ensures
            r == self.spec_truth_value(),
    {
        !(matches!(self, Variant::Nil | Variant::BoolFalse))
    }

    /// Whether a value takes part in numeric coercion (integer or float).
    pub open spec fn spec_is_arithmetic_primitive(self) -> bool {
        self is Integer || self is Float
    }

    /// Whether a value takes part in bitwise short-circuiting (boolean or integer).
    pub open spec fn spec_is_bitwise_primitive(self) -> bool {
        self is BoolTrue || self is BoolFalse || self is Integer
    }

    /// The bit pattern a bitwise primitive stands for in a shift:
    /// booleans count as 0 and 1, integers as themselves.
    pub open spec fn spec_bit_value(self) -> i64
        recommends
            self.spec_is_bitwise_primitive(),
    {
        match self {
            Variant::BoolTrue => 1,
            Variant::BoolFalse => 0,
            Variant::Integer(value) => value,
            _ => 0,
        }
    }

    /// The bit pattern a bitwise primitive stands for in a shift.
    pub fn bit_value(&self) -> (r: i64)
        requires
            self.spec_is_bitwise_primitive(),
        ensures
            r == self.spec_bit_value(),
    {
        match self {
            Variant::BoolTrue => 1,
            Variant::BoolFalse => 0,
            Variant::Integer(value) => *value,
            _ => 0,
        }
    }
}

} // verus!

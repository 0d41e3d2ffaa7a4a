//! What a call means, over any arithmetic.
//!
//! The library holds no numbers. What it says of a call is a formula; this
//! module gives the formula its value over an arithmetic that the caller
//! supplies, so that laws about values can be stated.

use vstd::prelude::*;
use crate::catalog::{binary_named, lemma_binary_named, lemma_unary_named, unary_named};
use crate::entry::{BinaryCall, UnaryCall};
use crate::funcs::{BinaryFunc, Formula, FuncType, MathOp, UnaryFunc};
use crate::prelude::PreludeState;
use crate::unit::{spec_from_angle_unit, Conversion, Unit};

verus! {

/// An arithmetic on numbers of type `N`: the operations out of which the
/// built-in functions are made.
#[verifier::reject_recursive_types(N)]
pub struct Arithmetic<N> {
    /// The number one.
    pub one: N,
    /// The quotient of two numbers.
    pub divide: spec_fn(N, N) -> N,
    /// A routine of the math library.
    pub apply: spec_fn(MathOp, N) -> N,
    /// An angle in degrees, in radians.
    pub to_radians: spec_fn(N) -> N,
    /// An angle in radians, in degrees.
    pub to_degrees: spec_fn(N) -> N,
    /// The larger of two numbers.
    pub max: spec_fn(N, N) -> N,
    /// The smaller of two numbers.
    pub min: spec_fn(N, N) -> N,
}

impl<N> Arithmetic<N> {
    /// The number `x` after `conversion`.
    pub open spec fn convert(self, conversion: Conversion, x: N) -> N {
        match conversion {
            Conversion::Keep => x,
            Conversion::DegreesToRadians => (self.to_radians)(x),
            Conversion::RadiansToDegrees => (self.to_degrees)(x),
        }
    }

    /// The value of `formula` at `x`.
    pub open spec fn formula(self, formula: Formula, x: N) -> N {
        match formula {
            Formula::Direct(op) => (self.apply)(op, x),
            Formula::Reciprocal(op) => (self.divide)(self.one, (self.apply)(op, x)),
            Formula::Quotient(numerator, denominator) => (self.divide)(
                (self.apply)(numerator, x),
                (self.apply)(denominator, x),
            ),
            Formula::OfReciprocal(op) => (self.apply)(op, (self.divide)(self.one, x)),
        }
    }

    /// The value of the unary function `func` at `x`, with no conversion.
    pub open spec fn unary_func(self, func: UnaryFunc, x: N) -> N {
        self.formula(func.spec_formula(), x)
    }

    /// The value of the binary function `func` at `x` and `y`, with no
    /// conversion.
    pub open spec fn binary_func(self, func: BinaryFunc, x: N, y: N) -> N {
        match func {
            BinaryFunc::Max => (self.max)(x, y),
            BinaryFunc::Min => (self.min)(x, y),
        }
    }

    /// The value of a call of a unary function on `x`.
    pub open spec fn unary(self, call: UnaryCall, x: N) -> N {
        self.convert(call.output, self.unary_func(call.func, self.convert(call.input, x)))
    }

    /// The value of a call of a binary function on `x` and `y`.
    pub open spec fn binary(self, call: BinaryCall, x: N, y: N) -> N {
        self.convert(
            call.output,
            self.binary_func(
                call.func,
                self.convert(call.inputs, x),
                self.convert(call.inputs, y),
            ),
        )
    }
}

/// In any arithmetic and any angle unit, the cotangent of `x` is the cosine
/// of `x` divided by the sine of `x`.
pub proof fn lemma_cot_is_cos_over_sin<N>(state: PreludeState, arith: Arithmetic<N>, x: N)
    ensures
        state.unary_call("cot"@) is Some,
        state.unary_call("cos"@) is Some,
        state.unary_call("sin"@) is Some,
        arith.unary(state.unary_call("cot"@)->0, x) == (arith.divide)(
            arith.unary(state.unary_call("cos"@)->0, x),
            arith.unary(state.unary_call("sin"@)->0, x),
        ),
{
    lemma_unary_named(UnaryFunc::Cot, "cot"@);
    lemma_unary_named(UnaryFunc::Cos, "cos"@);
    lemma_unary_named(UnaryFunc::Sin, "sin"@);
}

/// In any arithmetic and any angle unit, `cosh` is the hyperbolic cosine of
/// the angle in radians, `sech` is one divided by `cosh`, and `coth` is
/// `cosh` divided by `sinh`.
pub proof fn lemma_hyperbolic_reciprocals<N>(state: PreludeState, arith: Arithmetic<N>, x: N)
    ensures
        state.unary_call("cosh"@) is Some,
        state.unary_call("sinh"@) is Some,
        state.unary_call("sech"@) is Some,
        state.unary_call("coth"@) is Some,
        arith.unary(state.unary_call("cosh"@)->0, x) == (arith.apply)(
            MathOp::Cosh,
            arith.convert(spec_from_angle_unit(state.angle_unit), x),
        ),
        arith.unary(state.unary_call("sech"@)->0, x) == (arith.divide)(
            arith.one,
            arith.unary(state.unary_call("cosh"@)->0, x),
        ),
        arith.unary(state.unary_call("coth"@)->0, x) == (arith.divide)(
            arith.unary(state.unary_call("cosh"@)->0, x),
            arith.unary(state.unary_call("sinh"@)->0, x),
        ),
{
    lemma_unary_named(UnaryFunc::Cosh, "cosh"@);
    lemma_unary_named(UnaryFunc::Sinh, "sinh"@);
    lemma_unary_named(UnaryFunc::Sech, "sech"@);
    lemma_unary_named(UnaryFunc::Coth, "coth"@);
}

/// In any arithmetic and in radians, the arccotangent of `x` is the
/// arctangent of the reciprocal of `x`.
pub proof fn lemma_acot_is_atan_of_reciprocal<N>(state: PreludeState, arith: Arithmetic<N>, x: N)
    requires
        state.angle_unit == Unit::Radians,
    ensures
        state.unary_call("acot"@) is Some,
        state.unary_call("atan"@) is Some,
        arith.unary(state.unary_call("acot"@)->0, x) == arith.unary(
            state.unary_call("atan"@)->0,
            (arith.divide)(arith.one, x),
        ),
        arith.unary(state.unary_call("acot"@)->0, x) == (arith.apply)(
            MathOp::Atan,
            (arith.divide)(arith.one, x),
        ),
{
    lemma_unary_named(UnaryFunc::Acot, "acot"@);
    lemma_unary_named(UnaryFunc::Atan, "atan"@);
}

/// In radians no call converts anything: its value is the value of the
/// function.
pub proof fn lemma_radians_convert_nothing<N>(
    state: PreludeState,
    arith: Arithmetic<N>,
    name: Seq<char>,
    x: N,
    y: N,
)
    requires
        state.angle_unit == Unit::Radians,
    ensures
        state.unary_call(name) matches Some(call) ==> {
            arith.unary(call, x) == arith.unary_func(call.func, x)
        },
        state.binary_call(name) matches Some(call) ==> {
            arith.binary(call, x, y) == arith.binary_func(call.func, x, y)
        },
{
}

/// In degrees the argument of a trigonometric function is converted to
/// radians, the result of an inverse trigonometric function is converted to
/// degrees, and nothing else is converted.
pub proof fn lemma_degrees_convert_angles<N>(
    state: PreludeState,
    arith: Arithmetic<N>,
    name: Seq<char>,
    x: N,
    y: N,
)
    requires
        state.angle_unit == Unit::Degrees,
    ensures
        state.unary_call(name) matches Some(call) ==> {
            arith.unary(call, x) == match call.func.func_type() {
                FuncType::Trig => arith.unary_func(call.func, (arith.to_radians)(x)),
                FuncType::InverseTrig => (arith.to_degrees)(arith.unary_func(call.func, x)),
                FuncType::Other => arith.unary_func(call.func, x),
            }
        },
        state.binary_call(name) matches Some(call) ==> {
            arith.binary(call, x, y) == arith.binary_func(call.func, x, y)
        },
{
    if let Some(f) = unary_named(name) {
        lemma_unary_named(f, name);
    }
    if let Some(f) = binary_named(name) {
        lemma_binary_named(f, name);
    }
}

} // verus!

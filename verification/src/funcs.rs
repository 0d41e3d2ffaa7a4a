//! The numeric primitives behind the built-in functions.
//!
//! A primitive is described, not computed: each one is a [`Formula`] over the
//! routines of the platform's math library, which the caller evaluates.

use vstd::prelude::*;

verus! {

/// A routine of the platform's math library, from one number to one number.
#[derive(Clone, Copy, Debug, PartialEq, Eq, Structural)]
pub enum MathOp {
    /// Absolute value.
    Abs,
    /// Arccosine, in radians.
    Acos,
    /// Inverse hyperbolic cosine.
    Acosh,
    /// Arcsine, in radians.
    Asin,
    /// Inverse hyperbolic sine.
    Asinh,
    /// Arctangent, in radians.
    Atan,
    /// Inverse hyperbolic tangent.
    Atanh,
    /// Cube root.
    Cbrt,
    /// Smallest integer not below the number.
    Ceil,
    /// Cosine of an angle in radians.
    Cos,
    /// Hyperbolic cosine.
    Cosh,
    /// Exponential function.
    Exp,
    /// Largest integer not above the number.
    Floor,
    /// Fractional part, with the sign of the number.
    Fract,
    /// Natural logarithm.
    Ln,
    /// Logarithm to base ten.
    Log10,
    /// Nearest integer, halves away from zero.
    Round,
    /// Sine of an angle in radians.
    Sin,
    /// Hyperbolic sine.
    Sinh,
    /// Square root.
    Sqrt,
    /// Tangent of an angle in radians.
    Tan,
    /// Hyperbolic tangent.
    Tanh,
    /// Integer part, towards zero.
    Trunc,
}

/// How a unary primitive is computed from its argument `x`.
///
/// Divisions follow floating-point rules: a zero divisor gives an infinity
/// or a NaN, never a failure.
#[derive(Clone, Copy, Debug, PartialEq, Eq, Structural)]
pub enum Formula {
    /// `op(x)`
    Direct(MathOp),
    /// `1 / op(x)`
    Reciprocal(MathOp),
    /// `numerator(x) / denominator(x)`
    Quotient(MathOp, MathOp),
    /// `op(1 / x)`
    OfReciprocal(MathOp),
}

/// The groups into which the built-in functions fall. The group decides how
/// angles are converted around a call.
#[derive(Clone, Copy, Debug, PartialEq, Eq, Structural)]
pub enum FuncType {
    /// The argument is an angle: it is converted to radians before the call.
    Trig,
    /// The result is an angle: it is converted from radians after the call.
    InverseTrig,
    /// Nothing is converted.
    Other,
}

/// The built-in functions of one argument.
#[derive(Clone, Copy, Debug, PartialEq, Eq, Structural)]
pub enum UnaryFunc {
    Cos,
    Cosec,
    Cosech,
    Cosh,
    Cot,
    Coth,
    Sec,
    Sech,
    Sin,
    Sinh,
    Tan,
    Tanh,
    Acos,
    Acosh,
    Acot,
    Acoth,
    Acosec,
    Asec,
    Asech,
    Asin,
    Asinh,
    Atan,
    Atanh,
    Abs,
    Cbrt,
    Ceil,
    Exp,
    Floor,
    Frac,
    Log,
    Ln,
    Round,
    Sqrt,
    Trunc,
}

/// The built-in functions of two arguments.
///
/// Both follow the platform's convention for NaN: where exactly one argument
/// is a NaN, the other argument is the result.
#[derive(Clone, Copy, Debug, PartialEq, Eq, Structural)]
pub enum BinaryFunc {
    /// The larger of the two arguments.
    Max,
    /// The smaller of the two arguments.
    Min,
}

impl UnaryFunc {
    /// The name under which the function is called.
    pub open spec fn name(self) -> Seq<char> {
        match self {
            UnaryFunc::Cos => "cos"@,
            UnaryFunc::Cosec => "cosec"@,
            UnaryFunc::Cosech => "cosech"@,
            UnaryFunc::Cosh => "cosh"@,
            UnaryFunc::Cot => "cot"@,
            UnaryFunc::Coth => "coth"@,
            UnaryFunc::Sec => "sec"@,
            UnaryFunc::Sech => "sech"@,
            UnaryFunc::Sin => "sin"@,
            UnaryFunc::Sinh => "sinh"@,
            UnaryFunc::Tan => "tan"@,
            UnaryFunc::Tanh => "tanh"@,
            UnaryFunc::Acos => "acos"@,
            UnaryFunc::Acosh => "acosh"@,
            UnaryFunc::Acot => "acot"@,
            UnaryFunc::Acoth => "acoth"@,
            UnaryFunc::Acosec => "acosec"@,
            UnaryFunc::Asec => "asec"@,
            UnaryFunc::Asech => "asech"@,
            UnaryFunc::Asin => "asin"@,
            UnaryFunc::Asinh => "asinh"@,
            UnaryFunc::Atan => "atan"@,
            UnaryFunc::Atanh => "atanh"@,
            UnaryFunc::Abs => "abs"@,
            UnaryFunc::Cbrt => "cbrt"@,
            UnaryFunc::Ceil => "ceil"@,
            UnaryFunc::Exp => "exp"@,
            UnaryFunc::Floor => "floor"@,
            UnaryFunc::Frac => "frac"@,
            UnaryFunc::Log => "log"@,
            UnaryFunc::Ln => "ln"@,
            UnaryFunc::Round => "round"@,
            UnaryFunc::Sqrt => "sqrt"@,
            UnaryFunc::Trunc => "trunc"@,
        }
    }

    /// The group to which the function belongs.
    pub open spec fn func_type(self) -> FuncType {
        match self {
            UnaryFunc::Cos
            | UnaryFunc::Cosec
            | UnaryFunc::Cosech
            | UnaryFunc::Cosh
            | UnaryFunc::Cot
            | UnaryFunc::Coth
            | UnaryFunc::Sec
            | UnaryFunc::Sech
            | UnaryFunc::Sin
            | UnaryFunc::Sinh
            | UnaryFunc::Tan
            | UnaryFunc::Tanh => FuncType::Trig,
            UnaryFunc::Acos
            | UnaryFunc::Acosh
            | UnaryFunc::Acot
            | UnaryFunc::Acoth
            | UnaryFunc::Acosec
            | UnaryFunc::Asec
            | UnaryFunc::Asech
            | UnaryFunc::Asin
            | UnaryFunc::Asinh
            | UnaryFunc::Atan
            | UnaryFunc::Atanh => FuncType::InverseTrig,
            UnaryFunc::Abs
            | UnaryFunc::Cbrt
            | UnaryFunc::Ceil
            | UnaryFunc::Exp
            | UnaryFunc::Floor
            | UnaryFunc::Frac
            | UnaryFunc::Log
            | UnaryFunc::Ln
            | UnaryFunc::Round
            | UnaryFunc::Sqrt
            | UnaryFunc::Trunc => FuncType::Other,
        }
    }

    /// The formula by which the function is computed.
    ///
    /// One entry is not what its name suggests: `acosec` is the hyperbolic
    /// sine of the reciprocal, not an inverse cosecant.
    pub open spec fn spec_formula(self) -> Formula {
        match self {
            UnaryFunc::Cos => Formula::Direct(MathOp::Cos),
            UnaryFunc::Cosec => Formula::Reciprocal(MathOp::Sin),
            UnaryFunc::Cosech => Formula::Reciprocal(MathOp::Sinh),
            UnaryFunc::Cosh => Formula::Direct(MathOp::Cosh),
            UnaryFunc::Cot => Formula::Quotient(MathOp::Cos, MathOp::Sin),
            UnaryFunc::Coth => Formula::Quotient(MathOp::Cosh, MathOp::Sinh),
            UnaryFunc::Sec => Formula::Reciprocal(MathOp::Cos),
            UnaryFunc::Sech => Formula::Reciprocal(MathOp::Cosh),
            UnaryFunc::Sin => Formula::Direct(MathOp::Sin),
            UnaryFunc::Sinh => Formula::Direct(MathOp::Sinh),
            UnaryFunc::Tan => Formula::Direct(MathOp::Tan),
            UnaryFunc::Tanh => Formula::Direct(MathOp::Tanh),
            UnaryFunc::Acos => Formula::Direct(MathOp::Acos),
            UnaryFunc::Acosh => Formula::Direct(MathOp::Acosh),
            UnaryFunc::Acot => Formula::OfReciprocal(MathOp::Atan),
            UnaryFunc::Acoth => Formula::OfReciprocal(MathOp::Atanh),
            UnaryFunc::Acosec => Formula::OfReciprocal(MathOp::Sinh),
            UnaryFunc::Asec => Formula::OfReciprocal(MathOp::Acos),
            UnaryFunc::Asech => Formula::OfReciprocal(MathOp::Acosh),
            UnaryFunc::Asin => Formula::Direct(MathOp::Asin),
            UnaryFunc::Asinh => Formula::Direct(MathOp::Asinh),
            UnaryFunc::Atan => Formula::Direct(MathOp::Atan),
            UnaryFunc::Atanh => Formula::Direct(MathOp::Atanh),
            UnaryFunc::Abs => Formula::Direct(MathOp::Abs),
            UnaryFunc::Cbrt => Formula::Direct(MathOp::Cbrt),
            UnaryFunc::Ceil => Formula::Direct(MathOp::Ceil),
            UnaryFunc::Exp => Formula::Direct(MathOp::Exp),
            UnaryFunc::Floor => Formula::Direct(MathOp::Floor),
            UnaryFunc::Frac => Formula::Direct(MathOp::Fract),
            UnaryFunc::Log => Formula::Direct(MathOp::Log10),
            UnaryFunc::Ln => Formula::Direct(MathOp::Ln),
            UnaryFunc::Round => Formula::Direct(MathOp::Round),
            UnaryFunc::Sqrt => Formula::Direct(MathOp::Sqrt),
            UnaryFunc::Trunc => Formula::Direct(MathOp::Trunc),
        }
    }

    /// The formula by which the function is computed.
    #[verifier::when_used_as_spec(spec_formula)]
    pub fn formula(self) -> (formula: Formula)
        ensures
            formula == self.spec_formula(),
    {
        match self {
            UnaryFunc::Cos => Formula::Direct(MathOp::Cos),
            UnaryFunc::Cosec => Formula::Reciprocal(MathOp::Sin),
            UnaryFunc::Cosech => Formula::Reciprocal(MathOp::Sinh),
            UnaryFunc::Cosh => Formula::Direct(MathOp::Cosh),
            UnaryFunc::Cot => Formula::Quotient(MathOp::Cos, MathOp::Sin),
            UnaryFunc::Coth => Formula::Quotient(MathOp::Cosh, MathOp::Sinh),
            UnaryFunc::Sec => Formula::Reciprocal(MathOp::Cos),
            UnaryFunc::Sech => Formula::Reciprocal(MathOp::Cosh),
            UnaryFunc::Sin => Formula::Direct(MathOp::Sin),
            UnaryFunc::Sinh => Formula::Direct(MathOp::Sinh),
            UnaryFunc::Tan => Formula::Direct(MathOp::Tan),
            UnaryFunc::Tanh => Formula::Direct(MathOp::Tanh),
            UnaryFunc::Acos => Formula::Direct(MathOp::Acos),
            UnaryFunc::Acosh => Formula::Direct(MathOp::Acosh),
            UnaryFunc::Acot => Formula::OfReciprocal(MathOp::Atan),
            UnaryFunc::Acoth => Formula::OfReciprocal(MathOp::Atanh),
            UnaryFunc::Acosec => Formula::OfReciprocal(MathOp::Sinh),
            UnaryFunc::Asec => Formula::OfReciprocal(MathOp::Acos),
            UnaryFunc::Asech => Formula::OfReciprocal(MathOp::Acosh),
            UnaryFunc::Asin => Formula::Direct(MathOp::Asin),
            UnaryFunc::Asinh => Formula::Direct(MathOp::Asinh),
            UnaryFunc::Atan => Formula::Direct(MathOp::Atan),
            UnaryFunc::Atanh => Formula::Direct(MathOp::Atanh),
            UnaryFunc::Abs => Formula::Direct(MathOp::Abs),
            UnaryFunc::Cbrt => Formula::Direct(MathOp::Cbrt),
            UnaryFunc::Ceil => Formula::Direct(MathOp::Ceil),
            UnaryFunc::Exp => Formula::Direct(MathOp::Exp),
            UnaryFunc::Floor => Formula::Direct(MathOp::Floor),
            UnaryFunc::Frac => Formula::Direct(MathOp::Fract),
            UnaryFunc::Log => Formula::Direct(MathOp::Log10),
            UnaryFunc::Ln => Formula::Direct(MathOp::Ln),
            UnaryFunc::Round => Formula::Direct(MathOp::Round),
            UnaryFunc::Sqrt => Formula::Direct(MathOp::Sqrt),
            UnaryFunc::Trunc => Formula::Direct(MathOp::Trunc),
        }
    }
}

impl BinaryFunc {
    /// The name under which the function is called.
    pub open spec fn name(self) -> Seq<char> {
        match self {
            BinaryFunc::Max => "max"@,
            BinaryFunc::Min => "min"@,
        }
    }

    /// The group to which the function belongs: nothing is converted around
    /// a function of two arguments.
    pub open spec fn func_type(self) -> FuncType {
        FuncType::Other
    }
}

} // verus!

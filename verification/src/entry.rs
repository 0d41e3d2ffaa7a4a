//! Catalog entries, and what a call of one computes.

use vstd::prelude::*;
use crate::funcs::{BinaryFunc, FuncType, UnaryFunc};
use crate::unit::{
    from_angle_unit, spec_from_angle_unit, spec_to_angle_unit, to_angle_unit, Conversion, Unit,
};

verus! {

/// A unary function as the catalog hands it out: the function, and the
/// group that decides how angles are converted around a call.
#[derive(Clone, Copy, Debug, PartialEq, Eq, Structural)]
pub struct UnaryFuncInfo {
    pub func: UnaryFunc,
    pub func_type: FuncType,
}

/// A binary function as the catalog hands it out.
#[derive(Clone, Copy, Debug, PartialEq, Eq, Structural)]
pub struct BinaryFuncInfo {
    pub func: BinaryFunc,
    pub func_type: FuncType,
}

/// What is to be computed for a call of a unary function on `x`:
/// `output(func(input(x)))`. [`Arithmetic::unary`](crate::arith::Arithmetic::unary)
/// says so over any arithmetic.
#[derive(Clone, Copy, Debug, PartialEq, Eq, Structural)]
pub struct UnaryCall {
    /// Applied to the argument before the function.
    pub input: Conversion,
    pub func: UnaryFunc,
    /// Applied to what the function returns.
    pub output: Conversion,
}

/// What is to be computed for a call of a binary function on `x` and `y`:
/// `output(func(inputs(x), inputs(y)))`.
/// [`Arithmetic::binary`](crate::arith::Arithmetic::binary) says so over any
/// arithmetic.
#[derive(Clone, Copy, Debug, PartialEq, Eq, Structural)]
pub struct BinaryCall {
    /// Applied to each of the two arguments before the function.
    pub inputs: Conversion,
    pub func: BinaryFunc,
    /// Applied to what the function returns.
    pub output: Conversion,
}

/// The conversion of the arguments of a function of group `func_type`.
pub open spec fn input_conversion(func_type: FuncType, angle_unit: Unit) -> Conversion {
    if func_type is Trig {
        spec_from_angle_unit(angle_unit)
    } else {
        Conversion::Keep
    }
}

/// The conversion of the result of a function of group `func_type`.
pub open spec fn output_conversion(func_type: FuncType, angle_unit: Unit) -> Conversion {
    if func_type is InverseTrig {
        spec_to_angle_unit(angle_unit)
    } else {
        Conversion::Keep
    }
}

impl UnaryFuncInfo {
    /// The call of the function where angles are in `angle_unit`.
    pub open spec fn spec_call(self, angle_unit: Unit) -> UnaryCall {
        UnaryCall {
            input: input_conversion(self.func_type, angle_unit),
            func: self.func,
            output: output_conversion(self.func_type, angle_unit),
        }
    }

    /// Says what a call of the function computes where angles are in
    /// `angle_unit`.
    pub fn call(&self, angle_unit: &Unit) -> (call: UnaryCall)
        ensures
            call == self.spec_call(*angle_unit),
    {
        match self.func_type {
            FuncType::Trig => UnaryCall {
                input: from_angle_unit(angle_unit),
                func: self.func,
                output: Conversion::Keep,
            },
            FuncType::InverseTrig => UnaryCall {
                input: Conversion::Keep,
                func: self.func,
                output: to_angle_unit(angle_unit),
            },
            FuncType::Other => UnaryCall {
                input: Conversion::Keep,
                func: self.func,
                output: Conversion::Keep,
            },
        }
    }
}

impl BinaryFuncInfo {
    /// The call of the function where angles are in `angle_unit`.
    pub open spec fn spec_call(self, angle_unit: Unit) -> BinaryCall {
        BinaryCall {
            inputs: input_conversion(self.func_type, angle_unit),
            func: self.func,
            output: output_conversion(self.func_type, angle_unit),
        }
    }

    /// Says what a call of the function computes where angles are in
    /// `angle_unit`.
    pub fn call(&self, angle_unit: &Unit) -> (call: BinaryCall)
        ensures
            call == self.spec_call(*angle_unit),
    {
        match self.func_type {
            FuncType::Trig => BinaryCall {
                inputs: from_angle_unit(angle_unit),
                func: self.func,
                output: Conversion::Keep,
            },
            FuncType::InverseTrig => BinaryCall {
                inputs: Conversion::Keep,
                func: self.func,
                output: to_angle_unit(angle_unit),
            },
            FuncType::Other => BinaryCall {
                inputs: Conversion::Keep,
                func: self.func,
                output: Conversion::Keep,
            },
        }
    }
}

} // verus!

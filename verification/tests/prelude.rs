use math_prelude::entry::{BinaryCall, UnaryCall};
use math_prelude::funcs::{BinaryFunc, UnaryFunc};
use math_prelude::prelude::Prelude;
use math_prelude::unit::{Conversion, Unit, DEFAULT_ANGLE_UNIT};

const UNARY_NAMES: [&str; 34] = [
    "cos", "cosec", "cosech", "cosh", "cot", "coth", "sec", "sech", "sin", "sinh", "tan", "tanh",
    "acos", "acosh", "acot", "acoth", "acosec", "asec", "asech", "asin", "asinh", "atan", "atanh",
    "abs", "cbrt", "ceil", "exp", "floor", "frac", "log", "ln", "round", "sqrt", "trunc",
];

#[test]
fn every_unary_name_resolves() {
    for unit in [Unit::Radians, Unit::Degrees] {
        let mut prelude = Prelude::new(unit);
        for name in UNARY_NAMES {
            assert!(prelude.call_unary_func(name).is_some(), "{}", name);
        }
    }
}

#[test]
fn second_call_gives_what_the_first_gave() {
    for unit in [Unit::Radians, Unit::Degrees] {
        let mut prelude = Prelude::new(unit);
        for name in UNARY_NAMES {
            let first = prelude.call_unary_func(name);
            let second = prelude.call_unary_func(name);
            let third = prelude.call_unary_func(name);
            assert!(first.is_some(), "{}", name);
            assert_eq!(first, second, "{}", name);
            assert_eq!(first, third, "{}", name);
        }
        for name in ["max", "min"] {
            let first = prelude.call_binary_func(name);
            let second = prelude.call_binary_func(name);
            assert!(first.is_some(), "{}", name);
            assert_eq!(first, second, "{}", name);
        }
    }
}

#[test]
fn a_warm_prelude_answers_as_a_cold_one() {
    let mut warm = Prelude::new(Unit::Degrees);
    for name in UNARY_NAMES {
        warm.call_unary_func(name);
    }
    warm.call_binary_func("max");
    warm.call_binary_func("min");
    for name in UNARY_NAMES {
        let mut cold = Prelude::new(Unit::Degrees);
        assert_eq!(warm.call_unary_func(name), cold.call_unary_func(name), "{}", name);
    }
    for name in ["max", "min", "unknown_name"] {
        let mut cold = Prelude::new(Unit::Degrees);
        assert_eq!(warm.call_binary_func(name), cold.call_binary_func(name), "{}", name);
    }
}

#[test]
fn unknown_unary_name_is_absent() {
    for unit in [Unit::Radians, Unit::Degrees] {
        let mut prelude = Prelude::new(unit);
        assert_eq!(prelude.call_unary_func("unknown_name"), None);
        assert_eq!(prelude.call_unary_func("unknown_name"), None);
        assert_eq!(prelude.call_unary_func(""), None);
        assert_eq!(prelude.call_unary_func("max"), None);
        assert_eq!(prelude.call_unary_func("pi"), None);
    }
}

#[test]
fn unknown_binary_name_is_absent() {
    let mut prelude = Prelude::new(DEFAULT_ANGLE_UNIT);
    assert_eq!(prelude.call_binary_func("unknown_name"), None);
    assert_eq!(prelude.call_binary_func("sin"), None);
    assert_eq!(prelude.call_binary_func("maximum"), None);
    assert_eq!(prelude.call_binary_func("unknown_name"), None);
}

#[test]
fn unknown_names_do_not_disturb_known_ones() {
    let mut prelude = Prelude::new(Unit::Degrees);
    let before = prelude.call_unary_func("tan");
    assert_eq!(prelude.call_unary_func("tangent"), None);
    assert_eq!(prelude.call_binary_func("tan"), None);
    assert_eq!(prelude.call_unary_func("tan"), before);
}

#[test]
fn sin_in_radians_converts_nothing() {
    let mut prelude = Prelude::new(Unit::Radians);
    assert_eq!(
        prelude.call_unary_func("sin"),
        Some(UnaryCall { input: Conversion::Keep, func: UnaryFunc::Sin, output: Conversion::Keep })
    );
}

#[test]
fn sin_in_degrees_converts_the_argument() {
    let mut prelude = Prelude::new(Unit::Degrees);
    let expected = Some(UnaryCall {
        input: Conversion::DegreesToRadians,
        func: UnaryFunc::Sin,
        output: Conversion::Keep,
    });
    assert_eq!(prelude.call_unary_func("sin"), expected);
    assert_eq!(prelude.call_unary_func("sin"), expected);
}

#[test]
fn asin_in_degrees_converts_the_result() {
    let mut prelude = Prelude::new(Unit::Degrees);
    let expected = Some(UnaryCall {
        input: Conversion::Keep,
        func: UnaryFunc::Asin,
        output: Conversion::RadiansToDegrees,
    });
    assert_eq!(prelude.call_unary_func("asin"), expected);
    assert_eq!(prelude.call_unary_func("asin"), expected);
}

#[test]
fn sqrt_in_degrees_converts_nothing() {
    let mut prelude = Prelude::new(Unit::Degrees);
    assert_eq!(
        prelude.call_unary_func("sqrt"),
        Some(UnaryCall { input: Conversion::Keep, func: UnaryFunc::Sqrt, output: Conversion::Keep })
    );
}

#[test]
fn hyperbolic_functions_are_converted_like_the_circular_ones() {
    let mut prelude = Prelude::new(Unit::Degrees);
    for (name, func) in [
        ("sinh", UnaryFunc::Sinh),
        ("cosh", UnaryFunc::Cosh),
        ("tanh", UnaryFunc::Tanh),
        ("sech", UnaryFunc::Sech),
        ("cosech", UnaryFunc::Cosech),
        ("coth", UnaryFunc::Coth),
    ] {
        assert_eq!(
            prelude.call_unary_func(name),
            Some(UnaryCall { input: Conversion::DegreesToRadians, func, output: Conversion::Keep }),
            "{}",
            name
        );
    }
    for (name, func) in [
        ("asinh", UnaryFunc::Asinh),
        ("acosh", UnaryFunc::Acosh),
        ("atanh", UnaryFunc::Atanh),
        ("asech", UnaryFunc::Asech),
        ("acosec", UnaryFunc::Acosec),
        ("acoth", UnaryFunc::Acoth),
    ] {
        assert_eq!(
            prelude.call_unary_func(name),
            Some(UnaryCall { input: Conversion::Keep, func, output: Conversion::RadiansToDegrees }),
            "{}",
            name
        );
    }
}

#[test]
fn max_and_min_convert_nothing() {
    for unit in [Unit::Radians, Unit::Degrees] {
        let mut prelude = Prelude::new(unit);
        assert_eq!(
            prelude.call_binary_func("max"),
            Some(BinaryCall {
                inputs: Conversion::Keep,
                func: BinaryFunc::Max,
                output: Conversion::Keep
            })
        );
        assert_eq!(
            prelude.call_binary_func("min"),
            Some(BinaryCall {
                inputs: Conversion::Keep,
                func: BinaryFunc::Min,
                output: Conversion::Keep
            })
        );
    }
}

#[test]
fn order_of_calls_does_not_matter() {
    let mut forward = Prelude::new(Unit::Degrees);
    let mut backward = Prelude::new(Unit::Degrees);
    let a: Vec<Option<UnaryCall>> =
        UNARY_NAMES.iter().map(|name| forward.call_unary_func(name)).collect();
    let mut b: Vec<Option<UnaryCall>> =
        UNARY_NAMES.iter().rev().map(|name| backward.call_unary_func(name)).collect();
    b.reverse();
    assert_eq!(a, b);
}

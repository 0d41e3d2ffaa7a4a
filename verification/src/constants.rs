//! The named constants.

use vstd::prelude::*;

verus! {

/// The named constants, each with its value as a decimal literal: one digit,
/// a point, and eight digits after it.
pub const CONSTANTS: [(&'static str, &'static str); 7] = [
    ("pi", "3.14159265"),
    ("π", "3.14159265"),
    ("e", "2.71828182"),
    ("tau", "6.28318530"),
    ("τ", "6.28318530"),
    ("phi", "1.61803398"),
    ("ϕ", "1.61803398"),
];

/// Whether `c` is one of the ten decimal digits.
pub open spec fn is_digit(c: char) -> bool {
    '0' <= c <= '9'
}

/// The number that the decimal digit `c` stands for.
pub open spec fn digit_value(c: char) -> int {
    c as int - '0' as int
}

/// Whether `literal` is one digit, a point, and eight digits.
pub open spec fn is_decimal_literal(literal: Seq<char>) -> bool {
    &&& literal.len() == 10
    &&& is_digit(literal[0])
    &&& literal[1] == '.'
    &&& forall|i: int| 2 <= i < 10 ==> is_digit(#[trigger] literal[i])
}

/// The value of a decimal literal in units of `0.00000001`.
pub open spec fn scaled_value(literal: Seq<char>) -> int {
    digit_value(literal[0]) * 100_000_000 + digit_value(literal[2]) * 10_000_000 + digit_value(
        literal[3],
    ) * 1_000_000 + digit_value(literal[4]) * 100_000 + digit_value(literal[5]) * 10_000
        + digit_value(literal[6]) * 1_000 + digit_value(literal[7]) * 100 + digit_value(
        literal[8],
    ) * 10 + digit_value(literal[9])
}

/// The value of the constant at `i` in units of `0.00000001`.
pub open spec fn constant_value(i: int) -> int {
    scaled_value(CONSTANTS[i].1@)
}

/// The table holds seven constants under their names, each value a decimal
/// literal. The Greek names are synonyms, `tau` is twice `pi`, and `phi` is
/// the golden ratio `(1 + sqrt(5)) / 2` to within the last digit:
/// `2 * phi - 1` squares to five.
pub proof fn lemma_constant_table()
    ensures
        CONSTANTS@.len() == 7,
        forall|i: int| 0 <= i < 7 ==> is_decimal_literal(#[trigger] CONSTANTS[i].1@),
        CONSTANTS[0].0@ == "pi"@,
        CONSTANTS[1].0@ == "π"@,
        CONSTANTS[2].0@ == "e"@,
        CONSTANTS[3].0@ == "tau"@,
        CONSTANTS[4].0@ == "τ"@,
        CONSTANTS[5].0@ == "phi"@,
        CONSTANTS[6].0@ == "ϕ"@,
        constant_value(0) == constant_value(1) == 314_159_265,
        constant_value(2) == 271_828_182,
        constant_value(3) == constant_value(4) == 2 * constant_value(0),
        constant_value(5) == constant_value(6) == 161_803_398,
        ({
            let root = 2 * constant_value(5) - 100_000_000;
            root * root <= 5 * 100_000_000 * 100_000_000 < (root + 2) * (root + 2)
        }),
{
    reveal_strlit("3.14159265");
    reveal_strlit("2.71828182");
    reveal_strlit("6.28318530");
    reveal_strlit("1.61803398");
    let root = 2 * constant_value(5) - 100_000_000;
    assert(root * root <= 5 * 100_000_000 * 100_000_000 < (root + 2) * (root + 2)) by (nonlinear_arith)
        requires
            root == 223_606_796,
    ;
}

} // verus!

//! The catalog of built-in functions: which function a name stands for.
//!
//! The names fall into four groups: the trigonometric functions, their
//! inverses, the other functions of one argument, and the functions of two
//! arguments. A name is searched in the groups in this order.

use vstd::prelude::*;
use crate::entry::{BinaryFuncInfo, UnaryFuncInfo};
use crate::funcs::{BinaryFunc, FuncType, UnaryFunc};
use crate::text::str_eq;

verus! {

/// The unary function that is called `name`, if there is one.
pub open spec fn unary_named(name: Seq<char>) -> Option<UnaryFunc> {
    if exists|f: UnaryFunc| f.name() == name {
        Some(choose|f: UnaryFunc| f.name() == name)
    } else {
        None
    }
}

/// The binary function that is called `name`, if there is one.
pub open spec fn binary_named(name: Seq<char>) -> Option<BinaryFunc> {
    if exists|f: BinaryFunc| f.name() == name {
        Some(choose|f: BinaryFunc| f.name() == name)
    } else {
        None
    }
}

/// The unary function that is called `name`, if there is one in `group`.
pub open spec fn unary_named_in(name: Seq<char>, group: FuncType) -> Option<UnaryFunc> {
    match unary_named(name) {
        Some(f) if f.func_type() == group => Some(f),
        _ => None,
    }
}

/// The catalog's entry for the unary function called `name`.
pub open spec fn spec_resolve_unary(name: Seq<char>) -> Option<UnaryFuncInfo> {
    match unary_named(name) {
        Some(func) => Some(UnaryFuncInfo { func, func_type: func.func_type() }),
        None => None,
    }
}

/// The catalog's entry for the binary function called `name`.
pub open spec fn spec_resolve_binary(name: Seq<char>) -> Option<BinaryFuncInfo> {
    match binary_named(name) {
        Some(func) => Some(BinaryFuncInfo { func, func_type: func.func_type() }),
        None => None,
    }
}

/// Looks `name` up among the trigonometric functions, whose argument is an
/// angle.
pub fn trig_func(name: &str) -> (func: Option<UnaryFunc>)
    ensures
        func == unary_named_in(name@, FuncType::Trig),
{
    let func = if str_eq(name, "cos") {
        Some(UnaryFunc::Cos)
    } else if str_eq(name, "cosec") {
        Some(UnaryFunc::Cosec)
    } else if str_eq(name, "cosech") {
        Some(UnaryFunc::Cosech)
    } else if str_eq(name, "cosh") {
        Some(UnaryFunc::Cosh)
    } else if str_eq(name, "cot") {
        Some(UnaryFunc::Cot)
    } else if str_eq(name, "coth") {
        Some(UnaryFunc::Coth)
    } else if str_eq(name, "sec") {
        Some(UnaryFunc::Sec)
    } else if str_eq(name, "sech") {
        Some(UnaryFunc::Sech)
    } else if str_eq(name, "sin") {
        Some(UnaryFunc::Sin)
    } else if str_eq(name, "sinh") {
        Some(UnaryFunc::Sinh)
    } else if str_eq(name, "tan") {
        Some(UnaryFunc::Tan)
    } else if str_eq(name, "tanh") {
        Some(UnaryFunc::Tanh)
    } else {
        None
    };
    proof {
        lemma_unary_named_or_none(func, name@);
    }
    func
}

/// Looks `name` up among the inverse trigonometric functions, whose result is
/// an angle.
pub fn inverse_trig_func(name: &str) -> (func: Option<UnaryFunc>)
    ensures
        func == unary_named_in(name@, FuncType::InverseTrig),
{
    let func = if str_eq(name, "acos") {
        Some(UnaryFunc::Acos)
    } else if str_eq(name, "acosh") {
        Some(UnaryFunc::Acosh)
    } else if str_eq(name, "acot") {
        Some(UnaryFunc::Acot)
    } else if str_eq(name, "acoth") {
        Some(UnaryFunc::Acoth)
    } else if str_eq(name, "acosec") {
        Some(UnaryFunc::Acosec)
    } else if str_eq(name, "asec") {
        Some(UnaryFunc::Asec)
    } else if str_eq(name, "asech") {
        Some(UnaryFunc::Asech)
    } else if str_eq(name, "asin") {
        Some(UnaryFunc::Asin)
    } else if str_eq(name, "asinh") {
        Some(UnaryFunc::Asinh)
    } else if str_eq(name, "atan") {
        Some(UnaryFunc::Atan)
    } else if str_eq(name, "atanh") {
        Some(UnaryFunc::Atanh)
    } else {
        None
    };
    proof {
        lemma_unary_named_or_none(func, name@);
    }
    func
}

/// Looks `name` up among the unary functions that have nothing to do with
/// angles.
pub fn misc_func(name: &str) -> (func: Option<UnaryFunc>)
    ensures
        func == unary_named_in(name@, FuncType::Other),
{
    let func = if str_eq(name, "abs") {
        Some(UnaryFunc::Abs)
    } else if str_eq(name, "cbrt") {
        Some(UnaryFunc::Cbrt)
    } else if str_eq(name, "ceil") {
        Some(UnaryFunc::Ceil)
    } else if str_eq(name, "exp") {
        Some(UnaryFunc::Exp)
    } else if str_eq(name, "floor") {
        Some(UnaryFunc::Floor)
    } else if str_eq(name, "frac") {
        Some(UnaryFunc::Frac)
    } else if str_eq(name, "log") {
        Some(UnaryFunc::Log)
    } else if str_eq(name, "ln") {
        Some(UnaryFunc::Ln)
    } else if str_eq(name, "round") {
        Some(UnaryFunc::Round)
    } else if str_eq(name, "sqrt") {
        Some(UnaryFunc::Sqrt)
    } else if str_eq(name, "trunc") {
        Some(UnaryFunc::Trunc)
    } else {
        None
    };
    proof {
        lemma_unary_named_or_none(func, name@);
    }
    func
}

/// Looks `name` up among the functions of two arguments.
pub fn binary_misc_func(name: &str) -> (func: Option<BinaryFunc>)
    ensures
        func == binary_named(name@),
{
    let func = if str_eq(name, "max") {
        Some(BinaryFunc::Max)
    } else if str_eq(name, "min") {
        Some(BinaryFunc::Min)
    } else {
        None
    };
    proof {
        if let Some(f) = func {
            lemma_binary_named(f, name@);
        }
        if let Some(f) = binary_named(name@) {
            lemma_binary_named(f, name@);
        }
    }
    func
}

/// Searches the catalog for the unary function called `name`: first the
/// trigonometric functions, then their inverses, then the rest.
pub fn resolve_unary(name: &str) -> (info: Option<UnaryFuncInfo>)
    ensures
        info == spec_resolve_unary(name@),
{
    if let Some(func) = trig_func(name) {
        return Some(UnaryFuncInfo { func, func_type: FuncType::Trig });
    }
    if let Some(func) = inverse_trig_func(name) {
        return Some(UnaryFuncInfo { func, func_type: FuncType::InverseTrig });
    }
    if let Some(func) = misc_func(name) {
        Some(UnaryFuncInfo { func, func_type: FuncType::Other })
    } else {
        None
    }
}

/// Searches the catalog for the binary function called `name`.
pub fn resolve_binary(name: &str) -> (info: Option<BinaryFuncInfo>)
    ensures
        info == spec_resolve_binary(name@),
{
    if let Some(func) = binary_misc_func(name) {
        Some(BinaryFuncInfo { func, func_type: FuncType::Other })
    } else {
        None
    }
}

/// The character of `name` at `i`, or a blank where the name has ended.
spec fn char_at(name: Seq<char>, i: int) -> char {
    if 0 <= i < name.len() {
        name[i]
    } else {
        ' '
    }
}

/// The length of a name and its first six characters. No name of the catalog
/// is longer, so these tell its names apart.
spec fn leading_chars(name: Seq<char>) -> (nat, char, char, char, char, char, char) {
    (
        name.len(),
        char_at(name, 0),
        char_at(name, 1),
        char_at(name, 2),
        char_at(name, 3),
        char_at(name, 4),
        char_at(name, 5),
    )
}

/// Whether the character of `name` at `i`, if there is one, is a lower-case
/// letter.
spec fn is_lower_case_at(name: Seq<char>, i: int) -> bool {
    0 <= i < name.len() ==> 'a' <= name[i] <= 'z'
}

/// Whether `name` has at most six characters, all of them lower-case letters.
spec fn is_short_lower_case_word(name: Seq<char>) -> bool {
    &&& name.len() <= 6
    &&& is_lower_case_at(name, 0)
    &&& is_lower_case_at(name, 1)
    &&& is_lower_case_at(name, 2)
    &&& is_lower_case_at(name, 3)
    &&& is_lower_case_at(name, 4)
    &&& is_lower_case_at(name, 5)
}

/// Whether `name` is made of lower-case letters only.
pub open spec fn is_lower_case_word(name: Seq<char>) -> bool {
    forall|i: int| 0 <= i < name.len() ==> 'a' <= #[trigger] name[i] <= 'z'
}

/// The names of the unary functions are words of two to six lower-case
/// letters, and no two functions share a name.
pub proof fn lemma_unary_names(f: UnaryFunc, g: UnaryFunc)
    ensures
        2 <= f.name().len() <= 6,
        is_lower_case_word(f.name()),
        f.name() == g.name() ==> f == g,
{
    reveal_strlit("cos");
    reveal_strlit("cosec");
    reveal_strlit("cosech");
    reveal_strlit("cosh");
    reveal_strlit("cot");
    reveal_strlit("coth");
    reveal_strlit("sec");
    reveal_strlit("sech");
    reveal_strlit("sin");
    reveal_strlit("sinh");
    reveal_strlit("tan");
    reveal_strlit("tanh");
    reveal_strlit("acos");
    reveal_strlit("acosh");
    reveal_strlit("acot");
    reveal_strlit("acoth");
    reveal_strlit("acosec");
    reveal_strlit("asec");
    reveal_strlit("asech");
    reveal_strlit("asin");
    reveal_strlit("asinh");
    reveal_strlit("atan");
    reveal_strlit("atanh");
    reveal_strlit("abs");
    reveal_strlit("cbrt");
    reveal_strlit("ceil");
    reveal_strlit("exp");
    reveal_strlit("floor");
    reveal_strlit("frac");
    reveal_strlit("log");
    reveal_strlit("ln");
    reveal_strlit("round");
    reveal_strlit("sqrt");
    reveal_strlit("trunc");
    assert(is_short_lower_case_word(f.name()));
    if f.name() == g.name() {
        assert(leading_chars(f.name()) == leading_chars(g.name()));
    }
}

/// Every unary function is found under its own name, and under no other.
pub proof fn lemma_unary_named(f: UnaryFunc, name: Seq<char>)
    ensures
        unary_named(name) == Some(f) <==> f.name() == name,
{
    if f.name() == name {
        let g = choose|g: UnaryFunc| g.name() == name;
        lemma_unary_names(f, g);
    }
}

/// The names of the binary functions are words of three lower-case letters,
/// and the two functions do not share a name.
pub proof fn lemma_binary_names(f: BinaryFunc, g: BinaryFunc)
    ensures
        f.name().len() == 3,
        is_lower_case_word(f.name()),
        f.name() == g.name() ==> f == g,
{
    reveal_strlit("max");
    reveal_strlit("min");
    assert(is_short_lower_case_word(f.name()));
    if f.name() == g.name() {
        assert(leading_chars(f.name()) == leading_chars(g.name()));
    }
}

/// Every binary function is found under its own name, and under no other.
pub proof fn lemma_binary_named(f: BinaryFunc, name: Seq<char>)
    ensures
        binary_named(name) == Some(f) <==> f.name() == name,
{
    if f.name() == name {
        let g = choose|g: BinaryFunc| g.name() == name;
        lemma_binary_names(f, g);
    }
}

/// What `unary_named` gives for `name`, once `func` is known to carry the
/// name or no function of some group is known to.
proof fn lemma_unary_named_or_none(func: Option<UnaryFunc>, name: Seq<char>)
    ensures
        func matches Some(f) && f.name() == name ==> unary_named(name) == func,
        unary_named(name) matches Some(f) ==> f.name() == name,
{
    if let Some(f) = func {
        lemma_unary_named(f, name);
    }
    if let Some(f) = unary_named(name) {
        lemma_unary_named(f, name);
    }
}

} // verus!

use math_prelude::text::str_eq;

#[test]
fn equal_strings_are_equal() {
    assert!(str_eq("", ""));
    assert!(str_eq("cos", "cos"));
    assert!(str_eq("π", "π"));
    assert!(str_eq("acosec", &format!("{}{}", "aco", "sec")));
}

#[test]
fn different_strings_are_different() {
    assert!(!str_eq("cos", "cot"));
    assert!(!str_eq("cos", "cosh"));
    assert!(!str_eq("cosh", "cos"));
    assert!(!str_eq("", "e"));
    assert!(!str_eq("π", "τ"));
    assert!(!str_eq("π", "pi"));
    assert!(!str_eq("phi", "ϕ"));
    assert!(!str_eq("Cos", "cos"));
}

use math_prelude::constants::CONSTANTS;

fn value(name: &str) -> f64 {
    let (_, literal) = CONSTANTS.iter().find(|(n, _)| *n == name).unwrap();
    literal.parse().unwrap()
}

#[test]
fn table_holds_the_seven_constants_in_order() {
    let names: Vec<&str> = CONSTANTS.iter().map(|(name, _)| *name).collect();
    assert_eq!(names, vec!["pi", "π", "e", "tau", "τ", "phi", "ϕ"]);
    assert_eq!(CONSTANTS.len(), 7);
}

#[test]
fn table_holds_the_literals() {
    assert_eq!(CONSTANTS[0], ("pi", "3.14159265"));
    assert_eq!(CONSTANTS[1], ("π", "3.14159265"));
    assert_eq!(CONSTANTS[2], ("e", "2.71828182"));
    assert_eq!(CONSTANTS[3], ("tau", "6.28318530"));
    assert_eq!(CONSTANTS[4], ("τ", "6.28318530"));
    assert_eq!(CONSTANTS[5], ("phi", "1.61803398"));
    assert_eq!(CONSTANTS[6], ("ϕ", "1.61803398"));
}

#[test]
fn every_literal_is_a_digit_a_point_and_eight_digits() {
    for (name, literal) in CONSTANTS.iter() {
        let bytes = literal.as_bytes();
        assert_eq!(bytes.len(), 10, "{}", name);
        assert!(bytes[0].is_ascii_digit(), "{}", name);
        assert_eq!(bytes[1], b'.', "{}", name);
        assert!(bytes[2..].iter().all(|b| b.is_ascii_digit()), "{}", name);
        let parsed: f64 = literal.parse().unwrap();
        assert!(parsed.is_finite() && parsed > 0.0, "{}", name);
    }
}

#[test]
fn greek_names_are_synonyms() {
    assert_eq!(value("pi"), value("π"));
    assert_eq!(value("tau"), value("τ"));
    assert_eq!(value("phi"), value("ϕ"));
}

#[test]
fn constants_are_consistent() {
    assert!((value("pi") - std::f64::consts::PI).abs() < 1e-8);
    assert!((value("e") - std::f64::consts::E).abs() < 1e-8);
    assert!((value("tau") - 2.0 * value("pi")).abs() < 1e-8);
    assert!((value("phi") - (1.0 + 5f64.sqrt()) / 2.0).abs() < 1e-8);
}

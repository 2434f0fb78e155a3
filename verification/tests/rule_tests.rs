use gpu_automata::rule::{Rule, RuleCreationError};

fn flags(digits: &[u32]) -> [u32; 8] {
    let mut t = [0u32; 8];
    for &d in digits {
        t[(d - 1) as usize] = 1;
    }
    t
}

#[test]
fn parses_conway_life() {
    let rule = Rule::from_rule_str("B3/S23").unwrap();
    assert_eq!(rule.born, flags(&[3]));
    assert_eq!(rule.stay_alive, flags(&[2, 3]));
}

#[test]
fn parses_single_digit_parts() {
    let rule = Rule::from_rule_str("B1/S8").unwrap();
    assert_eq!(rule.born, flags(&[1]));
    assert_eq!(rule.stay_alive, flags(&[8]));
}

#[test]
fn parses_all_digits() {
    let rule = Rule::from_rule_str("B12345678/S12345678").unwrap();
    assert_eq!(rule.born, [1u32; 8]);
    assert_eq!(rule.stay_alive, [1u32; 8]);
}

#[test]
fn duplicate_digits_are_harmless() {
    let rule = Rule::from_rule_str("B33/S23").unwrap();
    let canonical = Rule::from_rule_str("B3/S23").unwrap();
    assert_eq!(rule.born, canonical.born);
    assert_eq!(rule.stay_alive, canonical.stay_alive);
}

#[test]
fn rejects_zero_digit() {
    let err = Rule::from_rule_str("B0/S23").unwrap_err();
    assert_eq!(err, RuleCreationError::InvalidRuleString);
}

#[test]
fn rejects_missing_slash() {
    assert!(Rule::from_rule_str("B3S23").is_err());
}

#[test]
fn rejects_empty_string() {
    assert!(Rule::from_rule_str("").is_err());
}

#[test]
fn rejects_nine_digit() {
    assert!(Rule::from_rule_str("B9/S23").is_err());
}

#[test]
fn rejects_missing_parts() {
    assert!(Rule::from_rule_str("B/S23").is_err());
    assert!(Rule::from_rule_str("B3/S").is_err());
    assert!(Rule::from_rule_str("B3/").is_err());
    assert!(Rule::from_rule_str("S23").is_err());
}

#[test]
fn rejects_surrounding_text() {
    assert!(Rule::from_rule_str("xB3/S23").is_err());
    assert!(Rule::from_rule_str("B3/S23x").is_err());
    assert!(Rule::from_rule_str(" B3/S23").is_err());
}

#[test]
fn rejects_wrong_letters() {
    assert!(Rule::from_rule_str("b3/s23").is_err());
    assert!(Rule::from_rule_str("B3\\S23").is_err());
}

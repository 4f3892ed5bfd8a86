use cervus::names::{action_name, decimal_string};

#[test]
fn decimal_rendering_matches_expected_digits() {
    assert_eq!(decimal_string(0).as_str(), "0");
    assert_eq!(decimal_string(7).as_str(), "7");
    assert_eq!(decimal_string(10).as_str(), "10");
    assert_eq!(decimal_string(905).as_str(), "905");
    assert_eq!(decimal_string(u32::MAX).as_str(), "4294967295");
}

#[test]
fn action_names_carry_the_counter() {
    assert_eq!(action_name(1).as_str(), "action_1");
    assert_eq!(action_name(2).as_str(), "action_2");
    assert_eq!(action_name(1234567).as_str(), "action_1234567");
}

use design_patterns::text::{amount_string, decimal_string, tenths_string};

#[test]
fn decimal_of_small_and_large() {
    assert_eq!(decimal_string(0), "0");
    assert_eq!(decimal_string(7), "7");
    assert_eq!(decimal_string(10), "10");
    assert_eq!(decimal_string(1234567890), "1234567890");
    assert_eq!(decimal_string(usize::MAX), usize::MAX.to_string());
}

#[test]
fn amounts_have_two_digits_of_cents() {
    assert_eq!(amount_string(0), "0.00");
    assert_eq!(amount_string(5), "0.05");
    assert_eq!(amount_string(299), "2.99");
    assert_eq!(amount_string(1200), "12.00");
}

#[test]
fn tenths_drop_a_zero_fraction() {
    assert_eq!(tenths_string(800), "80");
    assert_eq!(tenths_string(304), "30.4");
    assert_eq!(tenths_string(0), "0");
    assert_eq!(tenths_string(-5), "-0.5");
    assert_eq!(tenths_string(-120), "-12");
    assert_eq!(tenths_string(i32::MIN), "-214748364.8");
}

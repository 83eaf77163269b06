use pco::decimal::to_decimal;

#[test]
fn zero_is_one_digit() {
    assert_eq!(to_decimal(0), "0");
}

#[test]
fn single_digits() {
    let expected = ["0", "1", "2", "3", "4", "5", "6", "7", "8", "9"];
    for (n, text) in expected.iter().enumerate() {
        assert_eq!(to_decimal(n as u128), *text);
    }
}

#[test]
fn digits_come_most_significant_first() {
    assert_eq!(to_decimal(10), "10");
    assert_eq!(to_decimal(12345), "12345");
    assert_eq!(to_decimal(9007199254740993), "9007199254740993");
}

#[test]
fn inner_zeros_are_kept() {
    assert_eq!(to_decimal(1000), "1000");
    assert_eq!(to_decimal(10203040), "10203040");
}

#[test]
fn the_largest_number() {
    assert_eq!(to_decimal(u128::MAX), "340282366920938463463374607431768211455");
}

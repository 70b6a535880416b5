use xdotool::decimal::to_decimal;

#[test]
fn zero_is_a_single_digit() {
    assert_eq!(to_decimal(0), "0");
}

#[test]
fn single_digits() {
    let expected = ["0", "1", "2", "3", "4", "5", "6", "7", "8", "9"];
    for (n, text) in expected.iter().enumerate() {
        assert_eq!(to_decimal(n as u64), *text);
    }
}

#[test]
fn powers_of_ten_keep_their_zeros() {
    assert_eq!(to_decimal(10), "10");
    assert_eq!(to_decimal(100), "100");
    assert_eq!(to_decimal(1000), "1000");
    assert_eq!(to_decimal(10_000_000_000_000_000_000), "10000000000000000000");
}

#[test]
fn inner_zeros_are_kept() {
    assert_eq!(to_decimal(101), "101");
    assert_eq!(to_decimal(1_002_003), "1002003");
}

#[test]
fn limits_of_the_integer_types() {
    assert_eq!(to_decimal(255), "255");
    assert_eq!(to_decimal(65_535), "65535");
    assert_eq!(to_decimal(4_294_967_295), "4294967295");
    assert_eq!(to_decimal(u64::MAX), "18446744073709551615");
}

#[test]
fn decimal_agrees_with_the_standard_formatting() {
    let mut n: u64 = 1;
    for _ in 0..200 {
        assert_eq!(to_decimal(n), n.to_string());
        assert_eq!(to_decimal(n).parse::<u64>().unwrap(), n);
        n = n.wrapping_mul(6_364_136_223_846_793_005).wrapping_add(1_442_695_040_888_963_407);
    }
}

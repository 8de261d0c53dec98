use leech::text::u16_to_decimal;

#[test]
fn decimal_of_zero() {
    assert_eq!(u16_to_decimal(0), "0");
}

#[test]
fn decimal_of_one_digit() {
    assert_eq!(u16_to_decimal(9), "9");
}

#[test]
fn decimal_of_the_default_limit() {
    assert_eq!(u16_to_decimal(10), "10");
}

#[test]
fn decimal_keeps_inner_zeros() {
    assert_eq!(u16_to_decimal(1005), "1005");
}

#[test]
fn decimal_of_the_largest_limit() {
    assert_eq!(u16_to_decimal(u16::MAX), "65535");
}

#[test]
fn decimal_agrees_with_the_standard_rendering() {
    let mut n: u16 = 0;
    loop {
        assert_eq!(u16_to_decimal(n), n.to_string());
        if n == u16::MAX {
            break;
        }
        n += 1;
    }
}

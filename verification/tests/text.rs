use sinc::text::{first_index, last_index, to_decimal, to_signed_decimal};

#[test]
fn decimal_of_small_and_large() {
    assert_eq!(to_decimal(0), "0");
    assert_eq!(to_decimal(7), "7");
    assert_eq!(to_decimal(10), "10");
    assert_eq!(to_decimal(1905), "1905");
    assert_eq!(to_decimal(u32::MAX), "4294967295");
}

#[test]
fn signed_decimal_has_a_sign() {
    assert_eq!(to_signed_decimal(0), "0");
    assert_eq!(to_signed_decimal(127), "127");
    assert_eq!(to_signed_decimal(-1), "-1");
    assert_eq!(to_signed_decimal(i32::MAX), "2147483647");
    assert_eq!(to_signed_decimal(i32::MIN), "-2147483648");
}

#[test]
fn signed_decimal_agrees_with_std() {
    for n in [-100000, -99, -10, -9, 0, 9, 10, 99, 100, 65535, 1 << 30] {
        assert_eq!(to_signed_decimal(n), n.to_string());
    }
}

#[test]
fn first_and_last_index() {
    assert_eq!(first_index("a(b(c", '('), Some(1));
    assert_eq!(last_index("a(b(c", '('), Some(3));
    assert_eq!(first_index("abc", '('), None);
    assert_eq!(last_index("abc", '('), None);
    assert_eq!(first_index("", 'a'), None);
    assert_eq!(last_index("", 'a'), None);
    assert_eq!(first_index("▔a▔", 'a'), Some(1));
    assert_eq!(last_index("▔a▔", '▔'), Some(2));
}

use silent_backup::digits::{append_decimal, append_padded, append_signed_padded, decimal_width};

#[test]
fn decimal_text_is_appended() {
    let mut out = String::from("n=");
    append_decimal(&mut out, 0);
    append_decimal(&mut out, 7);
    append_decimal(&mut out, 10);
    append_decimal(&mut out, 4_294_967_295);
    assert_eq!(out, "n=07104294967295");
}

#[test]
fn decimal_width_counts_digits() {
    assert_eq!(decimal_width(0), 1);
    assert_eq!(decimal_width(9), 1);
    assert_eq!(decimal_width(10), 2);
    assert_eq!(decimal_width(99), 2);
    assert_eq!(decimal_width(100), 3);
    assert_eq!(decimal_width(u32::MAX), 10);
}

#[test]
fn padding_fills_to_the_width_and_never_cuts() {
    for (value, width) in [(0u32, 0u32), (0, 1), (0, 2), (5, 2), (59, 2), (123, 2), (7, 4), (2024, 4), (12345, 4)] {
        let mut out = String::new();
        append_padded(&mut out, value, width);
        assert_eq!(out, format!("{:0w$}", value, w = width as usize));
    }
}

#[test]
fn sign_counts_towards_the_width() {
    for (value, width) in [(-1i32, 4u32), (-999, 4), (-1000, 4), (-5, 0), (-5, 1), (0, 4), (42, 4), (i32::MIN, 4), (i32::MAX, 4)] {
        let mut out = String::from(">");
        append_signed_padded(&mut out, value, width);
        assert_eq!(out, format!(">{:0w$}", value, w = width as usize));
    }
}

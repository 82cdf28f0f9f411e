use bytedelta::decimal::{append_decimal, digit_text, to_decimal};

#[test]
fn decimal_agrees_with_the_standard_library() {
    for n in [0usize, 1, 9, 10, 11, 99, 100, 101, 255, 1000, 65535, 1234567890, usize::MAX] {
        assert_eq!(to_decimal(n), n.to_string());
    }
    for n in 0..2000usize {
        assert_eq!(to_decimal(n), n.to_string());
    }
}

#[test]
fn decimal_appends() {
    let mut text = String::from("x=");
    append_decimal(&mut text, 42);
    append_decimal(&mut text, 0);
    assert_eq!(text, "x=420");
    for d in 0..10usize {
        assert_eq!(digit_text(d), d.to_string());
    }
}

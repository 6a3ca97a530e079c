use rename_engine::numfmt::decimal_i32;

#[test]
fn decimal_renders_small_numbers() {
    assert_eq!(decimal_i32(0), "0");
    assert_eq!(decimal_i32(7), "7");
    assert_eq!(decimal_i32(32), "32");
    assert_eq!(decimal_i32(33), "33");
    assert_eq!(decimal_i32(180), "180");
}

#[test]
fn decimal_renders_negative_numbers() {
    assert_eq!(decimal_i32(-1), "-1");
    assert_eq!(decimal_i32(-45), "-45");
}

#[test]
fn decimal_renders_the_extremes() {
    assert_eq!(decimal_i32(i32::MAX), "2147483647");
    assert_eq!(decimal_i32(i32::MIN), "-2147483648");
}

use mnemnk_agent::jsonfmt::{i64_dec, u64_dec};

#[test]
fn zero_renders_without_sign() {
    assert_eq!(u64_dec(0), "0");
    assert_eq!(i64_dec(0), "0");
}

#[test]
fn positive_numbers_render_plainly() {
    assert_eq!(u64_dec(7), "7");
    assert_eq!(u64_dec(1000), "1000");
    assert_eq!(i64_dec(987654321), "987654321");
}

#[test]
fn negative_numbers_render_with_sign() {
    assert_eq!(i64_dec(-1), "-1");
    assert_eq!(i64_dec(-42), "-42");
}

#[test]
fn extremes_render_exactly() {
    assert_eq!(u64_dec(u64::MAX), "18446744073709551615");
    assert_eq!(i64_dec(i64::MAX), "9223372036854775807");
    assert_eq!(i64_dec(i64::MIN), "-9223372036854775808");
}

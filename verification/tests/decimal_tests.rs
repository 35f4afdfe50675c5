use gexbot::decimal::{decimal_i32, decimal_u64};

#[test]
fn unsigned_decimal() {
    assert_eq!(decimal_u64(0), "0");
    assert_eq!(decimal_u64(7), "7");
    assert_eq!(decimal_u64(10), "10");
    assert_eq!(decimal_u64(1234), "1234");
    assert_eq!(decimal_u64(697846732201000970), "697846732201000970");
    assert_eq!(decimal_u64(u64::MAX), u64::MAX.to_string());
}

#[test]
fn signed_decimal() {
    assert_eq!(decimal_i32(0), "0");
    assert_eq!(decimal_i32(12), "12");
    assert_eq!(decimal_i32(-5), "-5");
    assert_eq!(decimal_i32(i32::MIN), i32::MIN.to_string());
    assert_eq!(decimal_i32(i32::MAX), i32::MAX.to_string());
}

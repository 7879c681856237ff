use psqlpy::text::{chars_to_string, decimal_string, push_decimal, push_signed_decimal, push_str, str_to_chars};

#[test]
fn decimals() {
    assert_eq!(decimal_string(0), "0");
    assert_eq!(decimal_string(1234567890), "1234567890");
    assert_eq!(decimal_string(u64::MAX), u64::MAX.to_string());
    let mut s = String::from("n=");
    push_decimal(&mut s, 42);
    assert_eq!(s, "n=42");
    let mut t = String::new();
    push_signed_decimal(&mut t, -17);
    push_str(&mut t, ",");
    push_signed_decimal(&mut t, i64::MIN);
    assert_eq!(t, format!("-17,{}", i64::MIN));
}

#[test]
fn chars_round_trip() {
    let v = str_to_chars("héllo");
    assert_eq!(v, vec!['h', 'é', 'l', 'l', 'o']);
    assert_eq!(chars_to_string(&v, 1, 4), "éll");
    assert_eq!(chars_to_string(&v, 0, 5), "héllo");
    assert_eq!(chars_to_string(&v, 2, 2), "");
}

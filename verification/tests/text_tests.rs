use longport_core::text::{push_digits, push_int, str_eq};

#[test]
fn strings_are_compared_by_their_characters() {
    assert!(str_eq("", ""));
    assert!(str_eq("private", "private"));
    assert!(!str_eq("private", "Private"));
    assert!(!str_eq("private", "privat"));
    assert!(!str_eq("a", ""));
    assert!(str_eq("côté", "côté"));
    assert!(!str_eq("côté", "cote"));
}

#[test]
fn integers_are_written_in_decimal() {
    let mut out = String::from("n=");
    push_digits(&mut out, 0);
    assert_eq!(out, "n=0");
    let mut out = String::new();
    push_digits(&mut out, 9);
    push_digits(&mut out, 10);
    push_digits(&mut out, u64::MAX);
    assert_eq!(out, "91018446744073709551615");
    let mut out = String::new();
    push_int(&mut out, -1);
    out.push(' ');
    push_int(&mut out, i64::MIN);
    out.push(' ');
    push_int(&mut out, i64::MAX);
    out.push(' ');
    push_int(&mut out, 0);
    assert_eq!(out, "-1 -9223372036854775808 9223372036854775807 0");
}

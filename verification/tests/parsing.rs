use adventure::text::i32_to_string;
use adventure::text::parse_u32;
use adventure::text::u32_to_string;

#[test]
fn parse_plain_number() {
    assert_eq!(parse_u32(String::from("5")), Some(5));
    assert_eq!(parse_u32(String::from("123")), Some(123));
    assert_eq!(parse_u32(String::from("0")), Some(0));
}

#[test]
fn parse_trims_whitespace() {
    assert_eq!(parse_u32(String::from(" 42 \n")), Some(42));
    assert_eq!(parse_u32(String::from("\t7\r\n")), Some(7));
}

#[test]
fn parse_accepts_leading_plus() {
    assert_eq!(parse_u32(String::from("+7")), Some(7));
    assert_eq!(parse_u32(String::from("+")), None);
    assert_eq!(parse_u32(String::from("++7")), None);
}

#[test]
fn parse_rejects_non_numeric() {
    assert_eq!(parse_u32(String::from("")), None);
    assert_eq!(parse_u32(String::from("   ")), None);
    assert_eq!(parse_u32(String::from("abc")), None);
    assert_eq!(parse_u32(String::from("-1")), None);
    assert_eq!(parse_u32(String::from("1 2")), None);
    assert_eq!(parse_u32(String::from("12a")), None);
}

#[test]
fn parse_respects_u32_bounds() {
    assert_eq!(parse_u32(String::from("4294967295")), Some(u32::MAX));
    assert_eq!(parse_u32(String::from("4294967296")), None);
    assert_eq!(parse_u32(String::from("99999999999999999999")), None);
    assert_eq!(parse_u32(String::from("0000000001")), Some(1));
}

#[test]
fn decimal_rendering() {
    assert_eq!(u32_to_string(0), "0");
    assert_eq!(u32_to_string(7), "7");
    assert_eq!(u32_to_string(12345), "12345");
    assert_eq!(u32_to_string(u32::MAX), "4294967295");
    assert_eq!(i32_to_string(80), "80");
    assert_eq!(i32_to_string(-7), "-7");
    assert_eq!(i32_to_string(i32::MIN), "-2147483648");
}

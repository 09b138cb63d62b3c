use abi_stable::text::{parse_u32, push_decimal, usize_to_string};

#[test]
fn decimal_writing() {
    assert_eq!(usize_to_string(0), "0");
    assert_eq!(usize_to_string(7), "7");
    assert_eq!(usize_to_string(10), "10");
    assert_eq!(usize_to_string(1234567890), "1234567890");
    assert_eq!(usize_to_string(usize::MAX), usize::MAX.to_string());
}

#[test]
fn decimal_is_appended() {
    let mut s = String::from("n=");
    push_decimal(&mut s, 305);
    assert_eq!(s, "n=305");
}

#[test]
fn parse_u32_accepts_what_std_accepts() {
    assert_eq!(parse_u32("0"), Some(0));
    assert_eq!(parse_u32("42"), Some(42));
    assert_eq!(parse_u32("+42"), Some(42));
    assert_eq!(parse_u32("007"), Some(7));
    assert_eq!(parse_u32("4294967295"), Some(u32::MAX));
}

#[test]
fn parse_u32_refuses_what_std_refuses() {
    for s in ["", "+", "-", "-1", "4294967296", "99999999999999999999", "1a", " 1", "1 ", "++1", "١"] {
        assert_eq!(parse_u32(s), None, "{:?}", s);
        assert!(s.parse::<u32>().is_err());
    }
}

#[test]
fn parse_u32_agrees_with_std() {
    for s in ["0", "1", "+0", "65535", "000000000000004294967295", "+4294967295", "10", "3000000000"] {
        assert_eq!(parse_u32(s), s.parse::<u32>().ok(), "{:?}", s);
    }
}

#[test]
fn written_numbers_read_back() {
    for n in [0u32, 1, 9, 10, 99, 100, 65536, 4000000000, u32::MAX] {
        assert_eq!(parse_u32(&usize_to_string(n as usize)), Some(n));
    }
}

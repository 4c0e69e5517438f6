use caducity::text::{i64_to_text, parse_u32, same_text, u64_to_text};

#[test]
fn decimal_text_of_unsigned_numbers() {
    assert_eq!(u64_to_text(0), "0");
    assert_eq!(u64_to_text(7), "7");
    assert_eq!(u64_to_text(1234), "1234");
    assert_eq!(u64_to_text(u64::MAX), u64::MAX.to_string());
}

#[test]
fn decimal_text_of_signed_numbers() {
    assert_eq!(i64_to_text(0), "0");
    assert_eq!(i64_to_text(-45), "-45");
    assert_eq!(i64_to_text(1555), "1555");
    assert_eq!(i64_to_text(i64::MIN), i64::MIN.to_string());
    assert_eq!(i64_to_text(i64::MAX), i64::MAX.to_string());
}

#[test]
fn parse_accepts_what_std_accepts() {
    for text in ["0", "42", "+7", "007", "4294967295", "", "+", "-1", " 1", "1 ", "4294967296", "12a", "++1", "٣"] {
        assert_eq!(parse_u32(text), text.parse::<u32>().ok(), "text {:?}", text);
    }
}

#[test]
fn parse_reads_numbers() {
    assert_eq!(parse_u32("42"), Some(42));
    assert_eq!(parse_u32("+7"), Some(7));
    assert_eq!(parse_u32(""), None);
    assert_eq!(parse_u32("-1"), None);
    assert_eq!(parse_u32("4294967296"), None);
    assert_eq!(parse_u32("99999999999999999999999"), None);
}

#[test]
fn parse_reads_back_written_numbers() {
    for n in [0u32, 1, 9, 10, 99, 100, 65535, 4000000000, u32::MAX] {
        assert_eq!(parse_u32(&u64_to_text(n as u64)), Some(n));
    }
}

#[test]
fn same_text_compares_characters() {
    assert!(same_text("accept", "accept"));
    assert!(!same_text("accept", "Accept"));
    assert!(!same_text("accept", "accepted"));
    assert!(same_text("", ""));
    assert!(same_text("ñandú", "ñandú"));
}

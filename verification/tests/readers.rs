use pvinfo::read_flag;
use pvinfo::read_hex_mask;
use pvinfo::read_integer;

#[test]
fn flag_is_one() {
    assert!(read_flag("1"));
    assert!(read_flag("1\n"));
    assert!(read_flag("  1  \n"));
    assert!(read_flag("\n\n  1\n"));
}

#[test]
fn flag_is_anything_else() {
    assert!(!read_flag("0"));
    assert!(!read_flag(""));
    assert!(!read_flag("\n  \n"));
    assert!(!read_flag("2"));
    assert!(!read_flag("11"));
    assert!(!read_flag("true"));
}

#[test]
fn flag_uses_first_non_empty_line() {
    assert!(read_flag("\n1\n0\n"));
    assert!(!read_flag("0\n1\n"));
}

#[test]
fn integer_plain() {
    assert_eq!(read_integer("42"), Some(42));
    assert_eq!(read_integer("0\n"), Some(0));
    assert_eq!(read_integer("  7  \n"), Some(7));
    assert_eq!(read_integer("\n\n 512\nrest ignored\n"), Some(512));
}

#[test]
fn integer_accepts_a_leading_plus() {
    assert_eq!(read_integer("+9"), Some(9));
}

#[test]
fn integer_maximum_value() {
    assert_eq!(read_integer("18446744073709551615"), Some(u64::MAX));
}

#[test]
fn integer_overflow_is_no_value() {
    assert_eq!(read_integer("18446744073709551616"), None);
    assert_eq!(read_integer("99999999999999999999999"), None);
}

#[test]
fn integer_malformed_is_no_value() {
    assert_eq!(read_integer(""), None);
    assert_eq!(read_integer("abc"), None);
    assert_eq!(read_integer("12a"), None);
    assert_eq!(read_integer("-3"), None);
    assert_eq!(read_integer("+"), None);
    assert_eq!(read_integer("1 2"), None);
}

#[test]
fn hex_mask_with_prefix() {
    assert_eq!(read_hex_mask("0x8000000000000000"), Some(1u64 << 63));
    assert_eq!(read_hex_mask("0x1\n"), Some(1));
    assert_eq!(read_hex_mask("  0xff  \n"), Some(255));
}

#[test]
fn hex_mask_without_prefix() {
    assert_eq!(read_hex_mask("ff"), Some(255));
    assert_eq!(read_hex_mask("DEADBEEF"), Some(0xDEADBEEF));
}

#[test]
fn hex_mask_mixed_case_digits() {
    assert_eq!(read_hex_mask("0xAbCdEf"), Some(0xABCDEF));
}

#[test]
fn hex_mask_maximum_value() {
    assert_eq!(read_hex_mask("0xffffffffffffffff"), Some(u64::MAX));
}

#[test]
fn hex_mask_overflow_is_no_value() {
    assert_eq!(read_hex_mask("0x10000000000000000"), None);
}

#[test]
fn hex_mask_malformed_is_no_value() {
    assert_eq!(read_hex_mask(""), None);
    assert_eq!(read_hex_mask("0x"), None);
    assert_eq!(read_hex_mask("zz"), None);
    assert_eq!(read_hex_mask("0Xff"), None);
    assert_eq!(read_hex_mask("-1"), None);
    assert_eq!(read_hex_mask("0x12 34"), None);
}

#[test]
fn hex_mask_uses_first_non_empty_line() {
    assert_eq!(read_hex_mask("\n\n0x10\n0x20\n"), Some(16));
}

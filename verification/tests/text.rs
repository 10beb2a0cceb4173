//! Tests for the text helpers the protocols lean on.

use hyperv::text::{
    ends_with_ignore_ascii_case, parse_u32, parse_u32_or_zero, parse_u64, str_contains, str_eq,
    u64_to_dec_string,
};

#[test]
fn test_str_contains() {
    assert!(str_contains("Microsoft:Hyper-V:Synthetic SCSI Controller", "SCSI"));
    assert!(str_contains("abc", ""));
    assert!(str_contains("abc", "abc"));
    assert!(!str_contains("abc", "abcd"));
    assert!(!str_contains("Disk Drive", "DVD"));
}

#[test]
fn test_parse_u32() {
    assert_eq!(parse_u32("0"), Some(0));
    assert_eq!(parse_u32("42"), Some(42));
    assert_eq!(parse_u32("4294967295"), Some(u32::MAX));
    assert_eq!(parse_u32("4294967296"), None);
    assert_eq!(parse_u32(""), None);
    assert_eq!(parse_u32("12a"), None);
    assert_eq!(parse_u32("-1"), None);
}

#[test]
fn test_parse_u32_or_zero() {
    assert_eq!(parse_u32_or_zero("7"), 7);
    assert_eq!(parse_u32_or_zero("junk"), 0);
    assert_eq!(parse_u32_or_zero(""), 0);
}

#[test]
fn test_parse_u64() {
    assert_eq!(parse_u64("0"), Some(0));
    assert_eq!(parse_u64("4294967296"), Some(4294967296));
    assert_eq!(parse_u64("18446744073709551615"), Some(u64::MAX));
    assert_eq!(parse_u64("18446744073709551616"), None);
    assert_eq!(parse_u64("ten"), None);
}

#[test]
fn test_u64_to_dec_string() {
    assert_eq!(u64_to_dec_string(0), "0");
    assert_eq!(u64_to_dec_string(7), "7");
    assert_eq!(u64_to_dec_string(100), "100");
    assert_eq!(u64_to_dec_string(12582912), "12582912");
    assert_eq!(u64_to_dec_string(u64::MAX), "18446744073709551615");
}

#[test]
fn test_decimal_round_trip() {
    for n in [0u64, 1, 9, 10, 99, 4096, 32768, 1048576] {
        assert_eq!(parse_u64(&u64_to_dec_string(n)), Some(n));
    }
}

#[test]
fn test_ends_with_ignore_ascii_case() {
    assert!(ends_with_ignore_ascii_case("disk.VHDX", ".vhdx"));
    assert!(ends_with_ignore_ascii_case("disk.vhdx", ".vhdx"));
    assert!(!ends_with_ignore_ascii_case("disk.vhd", ".vhdx"));
    assert!(ends_with_ignore_ascii_case("IMAGE.ISO", ".iso"));
    assert!(!ends_with_ignore_ascii_case("iso", ".iso"));
}

#[test]
fn test_str_eq() {
    assert!(str_eq("ctrl-0", "ctrl-0"));
    assert!(!str_eq("ctrl-0", "ctrl-1"));
    assert!(!str_eq("ctrl", "ctrl-0"));
    assert!(str_eq("", ""));
}

use reddit_ingest::numstr::{i64_to_dec, parse_i64, u64_to_dec};
use reddit_ingest::strutil::{str_contains, str_eq, strip_nul};

#[test]
fn renders_u64_decimals() {
    assert_eq!(u64_to_dec(0), "0");
    assert_eq!(u64_to_dec(7), "7");
    assert_eq!(u64_to_dec(1234567890), "1234567890");
    assert_eq!(u64_to_dec(u64::MAX), "18446744073709551615");
}

#[test]
fn renders_i64_decimals() {
    assert_eq!(i64_to_dec(0), "0");
    assert_eq!(i64_to_dec(-1), "-1");
    assert_eq!(i64_to_dec(-42), "-42");
    assert_eq!(i64_to_dec(i64::MAX), "9223372036854775807");
    assert_eq!(i64_to_dec(i64::MIN), "-9223372036854775808");
}

#[test]
fn parses_decimals_like_std() {
    let cases = [
        "123",
        "+7",
        "-0",
        "0",
        "",
        "-",
        "+",
        "12x",
        " 12",
        "12 ",
        "0000123",
        "-0000123",
        "9223372036854775807",
        "9223372036854775808",
        "-9223372036854775808",
        "-9223372036854775809",
        "00000000000000000000000005",
        "99999999999999999999999999",
        "1e3",
        "--5",
    ];
    for s in cases {
        assert_eq!(parse_i64(s), s.parse::<i64>().ok(), "input {:?}", s);
    }
}

#[test]
fn string_equality_is_exact() {
    assert!(str_eq("", ""));
    assert!(str_eq("abc", "abc"));
    assert!(!str_eq("abc", "abd"));
    assert!(!str_eq("abc", "ab"));
    assert!(str_eq("naïve", "naïve"));
}

#[test]
fn substring_search() {
    assert!(str_contains("RS_2011-01.zst", "RS_"));
    assert!(!str_contains("RC_2011-01.zst", "RS_"));
    assert!(str_contains("abc", ""));
    assert!(!str_contains("ab", "abc"));
}

#[test]
fn strips_leading_nul_padding() {
    assert_eq!(strip_nul("\0\0{\"a\":1}"), "{\"a\":1}");
    assert_eq!(strip_nul("{\"a\":1}"), "{\"a\":1}");
    assert_eq!(strip_nul(""), "");
    assert_eq!(strip_nul("\0\0\0"), "");
    assert_eq!(strip_nul("a\0b"), "a\0b");
}

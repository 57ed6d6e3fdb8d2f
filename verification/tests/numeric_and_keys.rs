use classroom_auth::keys::AuthKeys;
use classroom_auth::numstr::{parse_u64_dec, u64_to_dec};
use classroom_auth::ops::junction_key;
use classroom_auth::text::{bytes_eq, str_eq};

#[test]
fn decimal_rendering_exact() {
    assert_eq!(u64_to_dec(0), "0");
    assert_eq!(u64_to_dec(7), "7");
    assert_eq!(u64_to_dec(10), "10");
    assert_eq!(u64_to_dec(1234567890), "1234567890");
    assert_eq!(u64_to_dec(u64::MAX), "18446744073709551615");
}

#[test]
fn decimal_parsing_exact() {
    assert_eq!(parse_u64_dec("0"), Some(0));
    assert_eq!(parse_u64_dec("007"), Some(7));
    assert_eq!(parse_u64_dec("1234567890"), Some(1234567890));
    assert_eq!(parse_u64_dec("18446744073709551615"), Some(u64::MAX));
    assert_eq!(parse_u64_dec(""), None);
    assert_eq!(parse_u64_dec("12a"), None);
    assert_eq!(parse_u64_dec("-5"), None);
    assert_eq!(parse_u64_dec("18446744073709551616"), None);
    assert_eq!(parse_u64_dec("99999999999999999999999"), None);
}

#[test]
fn decimal_round_trip() {
    for n in [0u64, 1, 9, 10, 99, 100, 4294967295, u64::MAX] {
        let s = u64_to_dec(n);
        assert_eq!(parse_u64_dec(s.as_str()), Some(n));
    }
}

#[test]
fn string_equality() {
    assert!(str_eq("", ""));
    assert!(str_eq("someone", "someone"));
    assert!(!str_eq("someone", "someonf"));
    assert!(!str_eq("someone", "someon"));
    assert!(!str_eq("a", "b"));
    assert!(bytes_eq(&vec![1u8, 2, 3], &vec![1u8, 2, 3]));
    assert!(!bytes_eq(&vec![1u8, 2, 3], &vec![1u8, 2, 4]));
    assert!(!bytes_eq(&vec![1u8, 2, 3], &vec![1u8, 2]));
}

#[test]
fn junction_key_format() {
    assert_eq!(junction_key(3, 5), "3-5");
    assert_eq!(junction_key(0, 0), "0-0");
    assert_eq!(junction_key(12, 345), "12-345");
}

#[test]
fn key_pair_rules() {
    assert!(AuthKeys::new(b"access-secret".to_vec(), b"refresh-secret".to_vec()).is_some());
    assert!(AuthKeys::new(b"same".to_vec(), b"same".to_vec()).is_none());
    assert!(AuthKeys::new(Vec::new(), b"refresh".to_vec()).is_none());
    assert!(AuthKeys::new(b"access".to_vec(), Vec::new()).is_none());
}

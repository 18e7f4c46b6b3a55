//! The decimal codec, exercised over its whole small range.

use minetest_protocol::wire::util::{from_hex, itos, stoi};

#[test]
fn itos_test() {
    assert_eq!(itos(123), vec![49, 50, 51]);
    assert_eq!(itos(-100), vec![45, 49, 48, 48]);
    assert_eq!(itos(0), vec![48]);
}

#[test]
fn itos_stoi_fuzz() {
    for i in -10000i64..10000 {
        let s = itos(i);
        let v = stoi(&s).expect("Should not have failed");
        assert_eq!(v, i);
    }
}

#[test]
fn stoi_rejects_junk() {
    assert!(stoi(b"").is_err());
    assert!(stoi(b"-").is_err());
    assert!(stoi(b"12a3").is_err());
    assert!(stoi(b"99999999999999999999999").is_err());
    assert_eq!(stoi(b"0007").unwrap(), 7);
    assert_eq!(stoi(b"9223372036854775807").unwrap(), i64::MAX);
    assert_eq!(stoi(b"-9223372036854775808").unwrap(), i64::MIN);
    assert!(stoi(b"9223372036854775808").is_err());
}

#[test]
fn from_hex_accepts_both_cases() {
    assert_eq!(from_hex(b'a').unwrap(), 10);
    assert_eq!(from_hex(b'A').unwrap(), 10);
    assert_eq!(from_hex(b'F').unwrap(), 15);
    assert_eq!(from_hex(b'7').unwrap(), 7);
    assert!(from_hex(b'g').is_err());
}

use proto_error::text::{push_binary, push_decimal, push_hex};

fn decimal(n: u64) -> String {
    let mut s = String::new();
    push_decimal(&mut s, n);
    s
}

fn binary(n: u64) -> String {
    let mut s = String::new();
    push_binary(&mut s, n);
    s
}

fn hex(n: u64) -> String {
    let mut s = String::new();
    push_hex(&mut s, n);
    s
}

#[test]
fn zero_is_one_digit_in_every_base() {
    assert_eq!(decimal(0), "0");
    assert_eq!(binary(0), "0");
    assert_eq!(hex(0), "0");
}

#[test]
fn decimal_has_no_leading_zero() {
    assert_eq!(decimal(7), "7");
    assert_eq!(decimal(10), "10");
    assert_eq!(decimal(70), "70");
    assert_eq!(decimal(1000), "1000");
    assert_eq!(decimal(65535), "65535");
    assert_eq!(decimal(u64::MAX), "18446744073709551615");
}

#[test]
fn binary_writes_bits_from_the_highest_set() {
    assert_eq!(binary(1), "1");
    assert_eq!(binary(2), "10");
    assert_eq!(binary(5), "101");
    assert_eq!(binary(255), "11111111");
    assert_eq!(binary(u64::MAX), "1".repeat(64));
}

#[test]
fn hexadecimal_uses_lower_case_letters() {
    assert_eq!(hex(10), "a");
    assert_eq!(hex(15), "f");
    assert_eq!(hex(16), "10");
    assert_eq!(hex(0xabcdef), "abcdef");
    assert_eq!(hex(u64::MAX), "ffffffffffffffff");
}

#[test]
fn numbers_are_written_as_the_formatter_writes_them() {
    let mut n: u64 = 0;
    for step in 0..5000u64 {
        assert_eq!(decimal(n), format!("{}", n));
        assert_eq!(binary(n), format!("{:b}", n));
        assert_eq!(hex(n), format!("{:x}", n));
        n = n.wrapping_mul(6364136223846793005).wrapping_add(step + 1);
    }
    for n in 0..=1024u64 {
        assert_eq!(decimal(n), format!("{}", n));
        assert_eq!(binary(n), format!("{:b}", n));
        assert_eq!(hex(n), format!("{:x}", n));
    }
}

#[test]
fn digits_are_appended_to_what_is_there() {
    let mut s = String::from("length ");
    push_decimal(&mut s, 42);
    s.push_str(", flags ");
    push_binary(&mut s, 6);
    s.push_str(", octet ");
    push_hex(&mut s, 255);
    assert_eq!(s, "length 42, flags 110, octet ff");
}

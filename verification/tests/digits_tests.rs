use samrelay::digits::{
    be_bytes_to_dec_ascii, check_digit_bytes, dec_ascii_to_be_bytes, digit_bytes_to_string,
    to_radix, u64_to_dec_ascii,
};

#[test]
fn u64_spelling_exact_values() {
    assert_eq!(u64_to_dec_ascii(0), b"0".to_vec());
    assert_eq!(u64_to_dec_ascii(7), b"7".to_vec());
    assert_eq!(u64_to_dec_ascii(10), b"10".to_vec());
    assert_eq!(u64_to_dec_ascii(90125), b"90125".to_vec());
    assert_eq!(u64_to_dec_ascii(u64::MAX), b"18446744073709551615".to_vec());
}

#[test]
fn decimal_to_bytes_exact_values() {
    // 258 = 1 * 256 + 2.
    assert_eq!(dec_ascii_to_be_bytes(b"258"), vec![1, 2]);
    assert_eq!(dec_ascii_to_be_bytes(b"0"), Vec::<u8>::new());
    assert_eq!(dec_ascii_to_be_bytes(b"255"), vec![255]);
    assert_eq!(dec_ascii_to_be_bytes(b"256"), vec![1, 0]);
    // Leading zeros in the spelling do not change the value.
    assert_eq!(dec_ascii_to_be_bytes(b"000258"), vec![1, 2]);
    assert_eq!(dec_ascii_to_be_bytes(b"16777216"), vec![1, 0, 0, 0]);
}

#[test]
fn bytes_to_decimal_exact_values() {
    assert_eq!(be_bytes_to_dec_ascii(&vec![1, 2]), b"258".to_vec());
    assert_eq!(be_bytes_to_dec_ascii(&Vec::new()), b"0".to_vec());
    assert_eq!(be_bytes_to_dec_ascii(&vec![0, 0]), b"0".to_vec());
    assert_eq!(be_bytes_to_dec_ascii(&vec![255, 255]), b"65535".to_vec());
    // A leading zero byte does not change the value.
    assert_eq!(be_bytes_to_dec_ascii(&vec![0, 1, 2]), b"258".to_vec());
}

#[test]
fn radix_round_trip_many_values() {
    for n in [0u64, 1, 9, 10, 255, 256, 65535, 123456789, u64::MAX] {
        let dec = u64_to_dec_ascii(n);
        let bytes = dec_ascii_to_be_bytes(&dec);
        assert_eq!(be_bytes_to_dec_ascii(&bytes), dec, "value {}", n);
    }
}

#[test]
fn to_radix_rewrites_bases() {
    // 90125 in base 16 is 0x1600D.
    let digits = vec![9u8, 0, 1, 2, 5];
    assert_eq!(to_radix(&digits, 10, 16), vec![1, 6, 0, 0, 13]);
    // And back.
    let hex = vec![1u8, 6, 0, 0, 13];
    assert_eq!(to_radix(&hex, 16, 10), vec![9, 0, 1, 2, 5]);
}

#[test]
fn digit_checks() {
    assert!(check_digit_bytes(b"0123456789"));
    assert!(!check_digit_bytes(b""));
    assert!(!check_digit_bytes(b"12 3"));
    assert!(!check_digit_bytes(b"+12"));
    assert!(!check_digit_bytes(b"1e4"));
}

#[test]
fn digit_bytes_spell_a_string() {
    assert_eq!(digit_bytes_to_string(b"90125"), "90125");
    assert_eq!(digit_bytes_to_string(b"0"), "0");
}

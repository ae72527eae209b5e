use logga::forwarder::checkpoint::{decode, digit, encode, space};
use logga::forwarder::error::CastFailure;

#[test]
fn encode_writes_digits_and_line_feed() {
    assert_eq!(encode(0), b"0\n".to_vec());
    assert_eq!(encode(7), b"7\n".to_vec());
    assert_eq!(encode(10), b"10\n".to_vec());
    assert_eq!(encode(65536), b"65536\n".to_vec());
    assert_eq!(encode(u64::MAX), b"18446744073709551615\n".to_vec());
}

#[test]
fn decode_reads_the_first_line() {
    assert_eq!(decode(b"42"), Ok(42));
    assert_eq!(decode(b"42\n"), Ok(42));
    assert_eq!(decode(b"42\nrest of the file\n99\n"), Ok(42));
    assert_eq!(decode(b"0"), Ok(0));
    assert_eq!(decode(b"007"), Ok(7));
    assert_eq!(decode(b"18446744073709551615"), Ok(u64::MAX));
}

#[test]
fn decode_passes_over_white_space_and_a_plus_sign() {
    assert_eq!(decode(b"  12\t\r\n"), Ok(12));
    assert_eq!(decode(b"+5\n"), Ok(5));
    assert_eq!(decode(b" +5 \n"), Ok(5));
    assert_eq!(decode(b"\x0b\x0c9"), Ok(9));
}

#[test]
fn decode_rejects_an_empty_line() {
    assert_eq!(decode(b""), Err(CastFailure::Empty));
    assert_eq!(decode(b"\n12"), Err(CastFailure::Empty));
    assert_eq!(decode(b"   \n"), Err(CastFailure::Empty));
}

#[test]
fn decode_rejects_what_is_no_number() {
    assert_eq!(decode(b"abc"), Err(CastFailure::InvalidDigit));
    assert_eq!(decode(b"12x"), Err(CastFailure::InvalidDigit));
    assert_eq!(decode(b"-1"), Err(CastFailure::InvalidDigit));
    assert_eq!(decode(b"+"), Err(CastFailure::InvalidDigit));
    assert_eq!(decode(b"++1"), Err(CastFailure::InvalidDigit));
    assert_eq!(decode(b"1 2"), Err(CastFailure::InvalidDigit));
    assert_eq!(decode(b"1.5"), Err(CastFailure::InvalidDigit));
    assert_eq!(decode(b"99999999999999999999999x"), Err(CastFailure::InvalidDigit));
}

#[test]
fn decode_rejects_what_does_not_fit() {
    assert_eq!(decode(b"18446744073709551616"), Err(CastFailure::PosOverflow));
    assert_eq!(decode(b"99999999999999999999999"), Err(CastFailure::PosOverflow));
}

#[test]
fn decode_reads_back_what_encode_wrote() {
    let offsets: [u64; 9] = [0, 1, 9, 10, 99, 100, 65536, 1 << 40, u64::MAX];
    for offset in offsets {
        assert_eq!(decode(&encode(offset)), Ok(offset));
    }
}

#[test]
fn space_and_digit_classify_bytes() {
    assert!(space(b' '));
    assert!(space(b'\t'));
    assert!(space(b'\n'));
    assert!(space(0x0b));
    assert!(space(0x0c));
    assert!(space(b'\r'));
    assert!(!space(b'0'));
    assert!(!space(0x08));
    assert!(!space(0x0e));
    assert!(digit(b'0'));
    assert!(digit(b'9'));
    assert!(!digit(b'/'));
    assert!(!digit(b':'));
}

#[test]
fn decode_agrees_with_the_standard_library() {
    let lines = [
        "", "0", "1", "+1", "-1", "007", " 42 ", "\t42\r", "4 2", "42abc", "abc", "+", "++1", "1+",
        "18446744073709551615", "18446744073709551616", "000000000000000000000000001",
        "99999999999999999999999999", "0x10", "1_000", "１２",
    ];
    for line in lines {
        let expected = line.trim().parse::<u64>().ok();
        assert_eq!(decode(line.as_bytes()).ok(), expected, "{:?}", line);
        let mut file = line.as_bytes().to_vec();
        file.extend_from_slice(b"\nsecond line\n");
        assert_eq!(decode(&file).ok(), expected, "{:?}", line);
    }
}

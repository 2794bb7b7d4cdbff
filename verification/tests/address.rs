use event_relay::address::EvmAddress;
use event_relay::amount::Uint256;

fn bytes_of(text: &str) -> [u8; 20] {
    EvmAddress::parse(text).expect("an address").bytes
}

#[test]
fn parses_prefixed_lower_case() {
    let bytes = bytes_of("0x63a0bfd6a5cdcf446ae12135e2cd86b908659568");
    assert_eq!(
        bytes,
        [
            0x63, 0xa0, 0xbf, 0xd6, 0xa5, 0xcd, 0xcf, 0x44, 0x6a, 0xe1, 0x21, 0x35, 0xe2, 0xcd,
            0x86, 0xb9, 0x08, 0x65, 0x95, 0x68
        ]
    );
}

#[test]
fn parses_without_prefix() {
    assert_eq!(
        bytes_of("A6E782af1b182329282CC67f1ce0f4680030E12F"),
        bytes_of("0xa6e782af1b182329282cc67f1ce0f4680030e12f")
    );
}

#[test]
fn parses_upper_case_prefix_and_mixed_digits() {
    let bytes = bytes_of("0X00000000000000000000000000000000000000fF");
    let mut expected = [0u8; 20];
    expected[19] = 255;
    assert_eq!(bytes, expected);
}

#[test]
fn each_digit_pair_is_one_byte() {
    let bytes = bytes_of("0x0102030405060708090a0b0c0d0e0f1011121314");
    for (i, byte) in bytes.iter().enumerate() {
        assert_eq!(*byte as usize, i + 1);
    }
}

#[test]
fn high_digit_counts_sixteen() {
    let bytes = bytes_of("0x1000000000000000000000000000000000000001");
    assert_eq!(bytes[0], 16);
    assert_eq!(bytes[19], 1);
}

#[test]
fn rejects_short_text() {
    assert_eq!(EvmAddress::parse("0x1234"), None);
    assert_eq!(EvmAddress::parse(""), None);
    assert_eq!(EvmAddress::parse("0x"), None);
}

#[test]
fn rejects_thirty_nine_and_forty_one_digits() {
    assert_eq!(EvmAddress::parse("0x63a0bfd6a5cdcf446ae12135e2cd86b90865956"), None);
    assert_eq!(EvmAddress::parse("0x63a0bfd6a5cdcf446ae12135e2cd86b9086595680"), None);
}

#[test]
fn rejects_a_digit_that_is_not_hexadecimal() {
    assert_eq!(EvmAddress::parse("0x63a0bfd6a5cdcf446ae12135e2cd86b90865956g"), None);
    assert_eq!(EvmAddress::parse("0x63a0bfd6a5cdcf446ae12135e2cd86b90865956 "), None);
}

#[test]
fn rejects_forty_characters_that_begin_with_the_prefix() {
    // Forty characters in all: the prefix leaves thirty-eight digits.
    assert_eq!(EvmAddress::parse("0x63a0bfd6a5cdcf446ae12135e2cd86b9086595"), None);
}

#[test]
fn rejects_text_that_is_not_ascii() {
    assert_eq!(EvmAddress::parse("0x63a0bfd6a5cdcf446ae12135e2cd86b90865956é"), None);
    assert_eq!(EvmAddress::parse("bitcoin address"), None);
}

#[test]
fn quantity_from_u64_fills_the_lowest_limb() {
    assert_eq!(Uint256::from_u64(1000).limbs, [1000, 0, 0, 0]);
    assert_eq!(Uint256::from_u64(0).limbs, [0, 0, 0, 0]);
    assert_eq!(Uint256::from_u64(u64::MAX).limbs, [u64::MAX, 0, 0, 0]);
}

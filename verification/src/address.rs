//! Account addresses of an EVM chain, and how their text form is read.

use alloy::primitives::Address;
use std::str::FromStr;
use vstd::prelude::*;

verus! {

/// The 20 bytes that name an account or a contract.
#[derive(Clone, Copy, Debug, PartialEq, Eq)]
pub struct EvmAddress {
    pub bytes: [u8; 20],
}

/// Whether `c` is one of the digits `0-9`, `a-f`, `A-F`.
pub open spec fn is_hex_digit(c: char) -> bool {
    ('0' <= c && c <= '9') || ('a' <= c && c <= 'f') || ('A' <= c && c <= 'F')
}

/// The number a hexadecimal digit stands for.
pub open spec fn hex_digit_value(c: char) -> int {
    if '0' <= c && c <= '9' {
        c as int - '0' as int
    } else if 'a' <= c && c <= 'f' {
        c as int - 'a' as int + 10
    } else {
        c as int - 'A' as int + 10
    }
}

/// The text without a leading `0x` or `0X`.
pub open spec fn without_hex_prefix(text: Seq<char>) -> Seq<char> {
    if text.len() >= 2 && text[0] == '0' && (text[1] == 'x' || text[1] == 'X') {
        text.skip(2)
    } else {
        text
    }
}

/// An address in text form is forty hexadecimal digits, in either case, with
/// or without the prefix.
pub open spec fn is_address_text(text: Seq<char>) -> bool {
    let digits = without_hex_prefix(text);
    digits.len() == 40 && forall|i: int| 0 <= i < 40 ==> is_hex_digit(#[trigger] digits[i])
}

/// The byte that the digit pair at position `i` of an address text stands for.
pub open spec fn address_text_byte(text: Seq<char>, i: int) -> u8 {
    let digits = without_hex_prefix(text);
    (16 * hex_digit_value(digits[2 * i]) + hex_digit_value(digits[2 * i + 1])) as u8
}

/// The address that an address text stands for: one byte for each digit pair,
/// in the order of the text.
pub open spec fn address_of_text(text: Seq<char>) -> EvmAddress {
    EvmAddress {
        bytes: [
            address_text_byte(text, 0),
            address_text_byte(text, 1),
            address_text_byte(text, 2),
            address_text_byte(text, 3),
            address_text_byte(text, 4),
            address_text_byte(text, 5),
            address_text_byte(text, 6),
            address_text_byte(text, 7),
            address_text_byte(text, 8),
            address_text_byte(text, 9),
            address_text_byte(text, 10),
            address_text_byte(text, 11),
            address_text_byte(text, 12),
            address_text_byte(text, 13),
            address_text_byte(text, 14),
            address_text_byte(text, 15),
            address_text_byte(text, 16),
            address_text_byte(text, 17),
            address_text_byte(text, 18),
            address_text_byte(text, 19),
        ],
    }
}

/// What reading `text` as an address gives.
pub open spec fn parsed_address(text: Seq<char>) -> Option<EvmAddress> {
    if is_address_text(text) {
        Some(address_of_text(text))
    } else {
        None
    }
}

/// Calls `Address::from_str` of alloy, which decodes the text as hexadecimal:
/// it succeeds on exactly the texts that are forty digits after an optional
/// prefix, and each byte of the address is then the value of one digit pair.
/// The error itself is dropped.
#[verifier::external_body]
fn address_from_str(text: &str) -> (parsed: Option<EvmAddress>)
    ensures
        parsed == parsed_address(text@),
{
    match Address::from_str(text) {
        Ok(address) => Some(EvmAddress { bytes: address.0.0 }),
        Err(_) => None,
    }
}

impl EvmAddress {
    /// Reads an address from its text form; `None` when the text is no address.
    pub fn parse(text: &str) -> (parsed: Option<EvmAddress>)
        ensures
            parsed == parsed_address(text@),
    {
        address_from_str(text)
    }
}

} // verus!

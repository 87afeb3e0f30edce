//! Entry points that exercise the hex and bit utilities. Each takes the raw
//! input of the engine and hands back what the utility made of it.

use crate::text::{hex_lower, utf8_text};
use vstd::prelude::*;
use vstd::slice::slice_to_vec;
use vstd::string::*;
use vstd::utf8::{encode_utf8, valid_utf8};

verus! {

/// The most bytes that the hex utility encodes at once.
pub const MAX_HEX_BYTES: usize = 262144;

/// Why the hex utility refused its input.
#[derive(Debug, PartialEq, Eq, Clone, Copy, Structural)]
pub enum HexError {
    /// A character is not a hexadecimal digit.
    InvalidCharacter,
    /// The number of digits is odd.
    LengthError,
    /// The digits do not stand for a value of the type asked for.
    HexConversionError,
    /// There are more bytes than the utility encodes.
    TooLarge,
}

/// The bits of `data`, eight for each byte, the lowest bit of a byte first.
pub open spec fn bits_of(data: Seq<u8>) -> Seq<bool> {
    Seq::new(8 * data.len(), |i: int| (data[i / 8] >> ((i % 8) as u8)) & 1u8 == 1u8)
}

/// Whether `c` is one of the five ASCII whitespace characters.
pub open spec fn is_ascii_space(c: char) -> bool {
    c == ' ' || c == '\t' || c == '\n' || c == '\x0C' || c == '\r'
}

/// `s` without the ASCII whitespace at its head.
pub open spec fn trim_head(s: Seq<char>) -> Seq<char>
    decreases s.len(),
{
    if s.len() > 0 && is_ascii_space(s[0]) {
        trim_head(s.drop_first())
    } else {
        s
    }
}

/// `s` without the ASCII whitespace at its tail.
pub open spec fn trim_tail(s: Seq<char>) -> Seq<char>
    decreases s.len(),
{
    if s.len() > 0 && is_ascii_space(s.last()) {
        trim_tail(s.drop_last())
    } else {
        s
    }
}

/// `s` without a leading `0x`.
pub open spec fn strip_prefix_0x(s: Seq<char>) -> Seq<char> {
    if s.len() >= 2 && s[0] == '0' && s[1] == 'x' {
        s.skip(2)
    } else {
        s
    }
}

/// The value of one hexadecimal digit in either case, if `b` is one.
pub open spec fn nibble(b: u8) -> Option<u8> {
    if 48 <= b <= 57 {
        Some((b - 48) as u8)
    } else if 97 <= b <= 102 {
        Some((b - 87) as u8)
    } else if 65 <= b <= 70 {
        Some((b - 55) as u8)
    } else {
        None
    }
}

/// The bytes that the digits `hex` stand for, two digits to a byte. An odd
/// number of digits is refused first, then a byte that is no digit.
pub open spec fn decode_digits(hex: Seq<u8>) -> core::result::Result<Seq<u8>, HexError> {
    if hex.len() % 2 != 0 {
        Err(HexError::LengthError)
    } else if exists|i: int| 0 <= i < hex.len() && nibble(#[trigger] hex[i]) is None {
        Err(HexError::InvalidCharacter)
    } else {
        Ok(
            Seq::new(
                hex.len() / 2,
                |i: int| (nibble(hex[2 * i])->0 * 16 + nibble(hex[2 * i + 1])->0) as u8,
            ),
        )
    }
}

/// What decoding the hex string `s` gives: surrounding ASCII whitespace and
/// then one leading `0x` are dropped, and the bytes of what is left are
/// read as digits.
pub open spec fn spec_from_hex(s: Seq<char>) -> core::result::Result<Seq<u8>, HexError> {
    decode_digits(encode_utf8(strip_prefix_0x(trim_tail(trim_head(s)))))
}

/// A trusted call of `tari_utilities::hex::to_hex`: more than 262144 bytes
/// are refused as too large, and anything else is written as two lower-case
/// digits for each byte, the high four bits first.
#[verifier::external_body]
fn to_hex(data: &[u8]) -> (hex: core::result::Result<String, HexError>)
    ensures
        match hex {
            Ok(digits) => data@.len() <= MAX_HEX_BYTES && digits@ == hex_lower(data@),
            Err(e) => data@.len() > MAX_HEX_BYTES && e == HexError::TooLarge,
        },
{
    match tari_utilities::hex::to_hex(data) {
        Ok(digits) => Ok(digits),
        Err(tari_utilities::hex::HexError::InvalidCharacter {}) => Err(HexError::InvalidCharacter),
        Err(tari_utilities::hex::HexError::LengthError {}) => Err(HexError::LengthError),
        Err(tari_utilities::hex::HexError::HexConversionError {}) => Err(
            HexError::HexConversionError,
        ),
        Err(tari_utilities::hex::HexError::TooLarge {}) => Err(HexError::TooLarge),
    }
}

/// A trusted call of `tari_utilities::hex::to_hex_multiple`, which encodes
/// the entries in order with `to_hex` and gives up at the first that is too
/// large.
#[verifier::external_body]
fn to_hex_multiple(list: &Vec<Vec<u8>>) -> (hex: core::result::Result<Vec<String>, HexError>)
    ensures
        match hex {
            Ok(all) => {
                &&& all@.len() == list@.len()
                &&& forall|i: int|
                    0 <= i < list@.len() ==> list@[i]@.len() <= MAX_HEX_BYTES && (#[trigger] all@[i])@
                        == hex_lower(list@[i]@)
            },
            Err(e) => e == HexError::TooLarge && exists|i: int|
                0 <= i < list@.len() && (#[trigger] list@[i])@.len() > MAX_HEX_BYTES,
        },
{
    match tari_utilities::hex::to_hex_multiple(list.as_slice()) {
        Ok(all) => Ok(all),
        Err(tari_utilities::hex::HexError::InvalidCharacter {}) => Err(HexError::InvalidCharacter),
        Err(tari_utilities::hex::HexError::LengthError {}) => Err(HexError::LengthError),
        Err(tari_utilities::hex::HexError::HexConversionError {}) => Err(
            HexError::HexConversionError,
        ),
        Err(tari_utilities::hex::HexError::TooLarge {}) => Err(HexError::TooLarge),
    }
}

/// A trusted call of `tari_utilities::hex::from_hex`, which trims ASCII
/// whitespace from both ends, drops one leading `0x`, refuses an odd number
/// of bytes, and then reads each pair of bytes as two digits of either
/// case, refusing the input if any byte is no digit.
#[verifier::external_body]
fn from_hex(text: &str) -> (bytes: core::result::Result<Vec<u8>, HexError>)
    ensures
        match bytes {
            Ok(data) => spec_from_hex(text@) == Ok::<Seq<u8>, HexError>(data@),
            Err(e) => spec_from_hex(text@) == Err::<Seq<u8>, HexError>(e),
        },
{
    match tari_utilities::hex::from_hex(text) {
        Ok(data) => Ok(data),
        Err(tari_utilities::hex::HexError::InvalidCharacter {}) => Err(HexError::InvalidCharacter),
        Err(tari_utilities::hex::HexError::LengthError {}) => Err(HexError::LengthError),
        Err(tari_utilities::hex::HexError::HexConversionError {}) => Err(
            HexError::HexConversionError,
        ),
        Err(tari_utilities::hex::HexError::TooLarge {}) => Err(HexError::TooLarge),
    }
}

/// A trusted call of `tari_utilities::bit::bytes_to_bits`, which turns each
/// byte into eight bits, bit `i` of a byte being whether the byte and
/// `1 << i` have a bit in common, and chains them in the order of the bytes.
#[verifier::external_body]
fn bytes_to_bits(data: &[u8]) -> (bits: Vec<bool>)
    ensures
        bits@ == bits_of(data@),
{
    tari_utilities::bit::bytes_to_bits(data)
}

/// Encodes the input as hex.
pub fn util_to_hex(data: &[u8]) -> (hex: core::result::Result<String, HexError>)
    ensures
        match hex {
            Ok(digits) => data@.len() <= MAX_HEX_BYTES && digits@ == hex_lower(data@),
            Err(e) => data@.len() > MAX_HEX_BYTES && e == HexError::TooLarge,
        },
{
    to_hex(data)
}

/// Spreads the input out into its bits.
pub fn util_bytes_to_bits(data: &[u8]) -> (bits: Vec<bool>)
    ensures
        bits@ == bits_of(data@),
{
    bytes_to_bits(data)
}

/// Decodes the input as a hex string, if it is text at all: input that is
/// not well-formed UTF-8 is passed over.
pub fn util_from_hex(data: &[u8]) -> (decoded: Option<core::result::Result<Vec<u8>, HexError>>)
    ensures
        match decoded {
            None => !valid_utf8(data@),
            Some(Ok(bytes)) => valid_utf8(data@) && spec_from_hex(vstd::utf8::decode_utf8(data@))
                == Ok::<Seq<u8>, HexError>(bytes@),
            Some(Err(e)) => valid_utf8(data@) && spec_from_hex(vstd::utf8::decode_utf8(data@))
                == Err::<Seq<u8>, HexError>(e),
        },
{
    match utf8_text(data) {
        Some(s) => {
            proof {
                vstd::utf8::encode_utf8_decode_utf8(s@);
            }
            Some(from_hex(s))
        },
        None => None,
    }
}

/// Encodes the input as hex, as the only entry of a list.
pub fn util_to_hex_multiple(data: &[u8]) -> (hex: core::result::Result<Vec<String>, HexError>)
    ensures
        match hex {
            Ok(all) => data@.len() <= MAX_HEX_BYTES && all@.len() == 1 && all@[0]@ == hex_lower(
                data@,
            ),
            Err(e) => data@.len() > MAX_HEX_BYTES && e == HexError::TooLarge,
        },
{
    let mut list: Vec<Vec<u8>> = Vec::new();
    list.push(slice_to_vec(data));
    let hex = to_hex_multiple(&list);
    proof {
        assert(list@[0]@ == data@);
        if hex is Ok {
            assert(hex->Ok_0@[0]@ == hex_lower(list@[0]@));
        }
    }
    hex
}

} // verus!

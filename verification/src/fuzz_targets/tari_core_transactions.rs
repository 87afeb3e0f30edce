//! Entry points that exercise the features of transaction outputs. Each
//! reads its input as a number in base 36 and hands the number back; the
//! caller passes it on.

use crate::text::utf8_text;
use vstd::prelude::*;
use vstd::string::*;
use vstd::utf8::{decode_utf8, valid_utf8};

verus! {

/// The value of one digit in base 36, if `c` is one: the ten digits, then
/// the letters in either case.
pub open spec fn digit36(c: char) -> Option<nat> {
    if '0' <= c <= '9' {
        Some((c as nat - '0' as nat) as nat)
    } else if 'a' <= c <= 'z' {
        Some((10 + c as nat - 'a' as nat) as nat)
    } else if 'A' <= c <= 'Z' {
        Some((10 + c as nat - 'A' as nat) as nat)
    } else {
        None
    }
}

/// Whether every character of `s` is a digit in base 36.
pub open spec fn all_digits36(s: Seq<char>) -> bool {
    forall|i: int| 0 <= i < s.len() ==> digit36(#[trigger] s[i]) is Some
}

/// The number that a string of digits in base 36 stands for, the most
/// significant digit first.
pub open spec fn value36(s: Seq<char>) -> nat
    decreases s.len(),
{
    if s.len() == 0 {
        0
    } else {
        value36(s.drop_last()) * 36 + digit36(s.last())->0
    }
}

/// The number that `s` stands for in base 36: one `+` may come first, at
/// least one digit must follow, nothing but digits may, and the number must
/// fit in 64 bits.
pub open spec fn spec_base36(s: Seq<char>) -> Option<u64> {
    let digits = if s.len() > 0 && s[0] == '+' {
        s.skip(1)
    } else {
        s
    };
    if digits.len() > 0 && all_digits36(digits) && value36(digits) <= u64::MAX {
        Some(value36(digits) as u64)
    } else {
        None
    }
}

/// The number that the input stands for: none unless the input is
/// well-formed UTF-8 and the text is a number in base 36.
pub open spec fn spec_trx_argument(data: Seq<u8>) -> Option<u64> {
    if valid_utf8(data) {
        spec_base36(decode_utf8(data))
    } else {
        None
    }
}

/// A trusted call of `u64::from_str_radix` with radix 36, which takes an
/// optional `+` followed by nothing but digits, at least one, and fails on
/// anything else and on a number too large for the type.
#[verifier::external_body]
fn parse_base36(text: &str) -> (value: Option<u64>)
    ensures
        value == spec_base36(text@),
{
    match u64::from_str_radix(text, 36) {
        Ok(value) => Some(value),
        Err(_) => None,
    }
}

/// Reads the input as a number in base 36.
fn trx_argument(data: &[u8]) -> (value: Option<u64>)
    ensures
        value == spec_trx_argument(data@),
{
    match utf8_text(data) {
        Some(text) => {
            proof {
                vstd::utf8::encode_utf8_decode_utf8(text@);
            }
            parse_base36(text)
        },
        None => None,
    }
}

/// The block height that the input stands for, at which a coinbase output
/// is to be made.
pub fn core_trx_create_coinbase(data: &[u8]) -> (height: Option<u64>)
    ensures
        height == spec_trx_argument(data@),
{
    trx_argument(data)
}

/// The maturity that the input stands for, with which output features are
/// to be made.
pub fn core_trx_with_maturity(data: &[u8]) -> (maturity: Option<u64>)
    ensures
        maturity == spec_trx_argument(data@),
{
    trx_argument(data)
}

} // verus!

//! Text primitives: comparison of strings, path joining, and the decimal and
//! hexadecimal forms that name seed files.

use vstd::prelude::*;
use vstd::string::*;
use vstd::utf8::valid_utf8;

verus! {

/// The sixteen lower-case hexadecimal digits, in order of value.
pub open spec fn hex_digits() -> Seq<char> {
    "0123456789abcdef"@
}

/// Lower-case hexadecimal form of `data`: two digits per byte, the high
/// nibble first.
pub open spec fn hex_lower(data: Seq<u8>) -> Seq<char> {
    Seq::new(
        2 * data.len(),
        |i: int|
            if i % 2 == 0 {
                hex_digits()[data[i / 2] as int / 16]
            } else {
                hex_digits()[data[i / 2] as int % 16]
            },
    )
}

/// The character of one decimal digit.
pub open spec fn decimal_digit(d: nat) -> char {
    "0123456789"@[d as int]
}

/// Decimal form of `n` as text, most significant digit first, without
/// leading zeros.
pub open spec fn decimal_text(n: nat) -> Seq<char>
    decreases n,
{
    if n < 10 {
        seq![decimal_digit(n)]
    } else {
        decimal_text(n / 10).push(decimal_digit(n % 10))
    }
}

/// Decimal form of a number of either sign: a minus sign comes before the
/// digits of a negative number.
pub open spec fn signed_decimal_text(v: int) -> Seq<char> {
    if v < 0 {
        seq!['-'] + decimal_text((-v) as nat)
    } else {
        decimal_text(v as nat)
    }
}

/// The bytes of a text of ASCII characters, one byte for each character.
pub open spec fn ascii_bytes(chars: Seq<char>) -> Seq<u8> {
    Seq::new(chars.len(), |i: int| chars[i] as u8)
}

/// Decimal form of `n` as ASCII bytes: the bytes of its decimal text.
pub open spec fn decimal(n: nat) -> Seq<u8> {
    ascii_bytes(decimal_text(n))
}

/// `rel` adjoined to `base` the way a path is extended: a `rel` that starts
/// at the root stands alone, otherwise one separator is put between the two
/// unless `base` is empty or already ends in one.
pub open spec fn spec_join(base: Seq<char>, rel: Seq<char>) -> Seq<char> {
    if rel.len() > 0 && rel[0] == '/' {
        rel
    } else if base.len() > 0 && base.last() != '/' {
        base + seq!['/'] + rel
    } else {
        base + rel
    }
}

/// The bytes of an ASCII string.
pub(crate) fn literal_bytes(s: &str) -> (bytes: &[u8])
    requires
        is_ascii(s),
    ensures
        bytes@ == ascii_bytes(s@),
{
    proof {
        is_ascii_spec_bytes(s);
    }
    s.as_bytes()
}

/// ASCII lower-case form of one byte.
pub open spec fn ascii_lower(b: u8) -> u8 {
    if 65 <= b <= 90 {
        (b + 32) as u8
    } else {
        b
    }
}

/// Whether two byte strings are equal once ASCII letters are folded to
/// lower case.
pub open spec fn eq_ignore_ascii_case(a: Seq<u8>, b: Seq<u8>) -> bool {
    &&& a.len() == b.len()
    &&& forall|i: int| 0 <= i < a.len() ==> ascii_lower(#[trigger] a[i]) == ascii_lower(b[i])
}

/// Equality of two byte strings.
pub fn bytes_eq(a: &[u8], b: &[u8]) -> (same: bool)
    ensures
        same == (a@ == b@),
{
    if a.len() != b.len() {
        return false;
    }
    let mut i: usize = 0;
    while i < a.len()
        invariant
            a.len() == b.len(),
            i <= a.len(),
            forall|j: int| 0 <= j < i ==> a@[j] == b@[j],
        decreases a.len() - i,
    {
        if a[i] != b[i] {
            return false;
        }
        i += 1;
    }
    assert(a@ =~= b@);
    true
}

/// Equality of two strings, character by character.
pub fn str_eq(a: &str, b: &str) -> (same: bool)
    ensures
        same == (a@ == b@),
{
    let same = bytes_eq(a.as_bytes(), b.as_bytes());
    proof {
        // Two strings with the same encoding decode to the same characters.
        vstd::utf8::encode_utf8_decode_utf8(a@);
        vstd::utf8::encode_utf8_decode_utf8(b@);
    }
    same
}

/// Equality of two strings up to the case of ASCII letters.
pub fn str_eq_ignore_ascii_case(a: &str, b: &str) -> (same: bool)
    ensures
        same == eq_ignore_ascii_case(a.spec_bytes(), b.spec_bytes()),
{
    let x = a.as_bytes();
    let y = b.as_bytes();
    if x.len() != y.len() {
        return false;
    }
    let mut i: usize = 0;
    while i < x.len()
        invariant
            x@ == a.spec_bytes(),
            y@ == b.spec_bytes(),
            x.len() == y.len(),
            i <= x.len(),
            forall|j: int| 0 <= j < i ==> ascii_lower(#[trigger] x@[j]) == ascii_lower(y@[j]),
        decreases x.len() - i,
    {
        let p = x[i];
        let q = y[i];
        let p_low = if 65 <= p && p <= 90 { p + 32 } else { p };
        let q_low = if 65 <= q && q <= 90 { q + 32 } else { q };
        if p_low != q_low {
            assert(ascii_lower(x@[i as int]) != ascii_lower(y@[i as int]));
            return false;
        }
        i += 1;
    }
    true
}

/// Joins `rel` onto `base` as a path.
pub fn join_path(base: &str, rel: &str) -> (path: String)
    ensures
        path@ == spec_join(base@, rel@),
{
    proof {
        reveal_strlit("/");
    }
    if !rel.is_empty() && rel.get_char(0) == '/' {
        return String::from_str(rel);
    }
    let mut path = String::from_str(base);
    let n = base.unicode_len();
    if n > 0 && base.get_char(n - 1) != '/' {
        path.append("/");
        assert("/"@ =~= seq!['/']);
    }
    path.append(rel);
    path
}

/// Decimal form of a byte, as ASCII digits.
pub fn decimal_u8(v: u8) -> (digits: Vec<u8>)
    ensures
        digits@ == decimal(v as nat),
{
    let mut digits: Vec<u8> = Vec::new();
    if v >= 100 {
        digits.push(48 + v / 100);
    }
    if v >= 10 {
        digits.push(48 + (v / 10) % 10);
    }
    digits.push(48 + v % 10);
    proof {
        reveal_with_fuel(decimal_text, 3);
        reveal_strlit("0123456789");
        assert(digits@ =~= decimal(v as nat));
    }
    digits
}

/// A trusted call of `core::str::from_utf8`, which accepts exactly the byte
/// strings that are well-formed UTF-8 and hands the same bytes back as a
/// string.
#[verifier::external_body]
pub(crate) fn utf8_text(data: &[u8]) -> (text: Option<&str>)
    ensures
        match text {
            Some(s) => valid_utf8(data@) && s.spec_bytes() == data@,
            None => !valid_utf8(data@),
        },
{
    match core::str::from_utf8(data) {
        Ok(text) => Some(text),
        Err(_) => None,
    }
}

/// A trusted call of `hex::encode`: the crate writes each byte as two
/// characters looked up in `0123456789abcdef`, first by the high four bits
/// and then by the low four, and collects them into a string.
#[verifier::external_body]
pub(crate) fn hex_encode(data: &[u8]) -> (name: String)
    ensures
        name@ == hex_lower(data@),
{
    hex::encode(data)
}

/// Distinct values have distinct hexadecimal digits.
pub proof fn lemma_hex_digits_distinct(a: int, b: int)
    requires
        0 <= a < 16,
        0 <= b < 16,
        hex_digits()[a] == hex_digits()[b],
    ensures
        a == b,
{
    reveal_strlit("0123456789abcdef");
}

/// The hexadecimal form determines the bytes: two byte strings with the same
/// form are the same string.
pub proof fn lemma_hex_lower_injective(a: Seq<u8>, b: Seq<u8>)
    requires
        hex_lower(a) == hex_lower(b),
    ensures
        a == b,
{
    assert(hex_lower(a).len() == 2 * a.len());
    assert(hex_lower(b).len() == 2 * b.len());
    assert forall|i: int| 0 <= i < a.len() implies a[i] == b[i] by {
        let x = a[i] as int;
        let y = b[i] as int;
        assert(hex_lower(a)[2 * i] == hex_digits()[x / 16]);
        assert(hex_lower(b)[2 * i] == hex_digits()[y / 16]);
        assert(hex_lower(a)[2 * i + 1] == hex_digits()[x % 16]);
        assert(hex_lower(b)[2 * i + 1] == hex_digits()[y % 16]);
        lemma_hex_digits_distinct(x / 16, y / 16);
        lemma_hex_digits_distinct(x % 16, y % 16);
    }
    assert(a =~= b);
}

/// The text of one decimal digit.
fn digit_text(d: u64) -> (text: &'static str)
    requires
        d < 10,
    ensures
        text@ == seq![decimal_digit(d as nat)],
{
    proof {
        reveal_strlit("0123456789");
        reveal_strlit("0");
        reveal_strlit("1");
        reveal_strlit("2");
        reveal_strlit("3");
        reveal_strlit("4");
        reveal_strlit("5");
        reveal_strlit("6");
        reveal_strlit("7");
        reveal_strlit("8");
        reveal_strlit("9");
    }
    let text = if d == 0 {
        "0"
    } else if d == 1 {
        "1"
    } else if d == 2 {
        "2"
    } else if d == 3 {
        "3"
    } else if d == 4 {
        "4"
    } else if d == 5 {
        "5"
    } else if d == 6 {
        "6"
    } else if d == 7 {
        "7"
    } else if d == 8 {
        "8"
    } else {
        "9"
    };
    assert(text@ =~= seq![decimal_digit(d as nat)]);
    text
}

/// Appends the decimal form of `v` to `out`.
fn push_decimal(out: &mut String, v: u64)
    ensures
        final(out)@ == old(out)@ + decimal_text(v as nat),
    decreases v,
{
    if v >= 10 {
        push_decimal(out, v / 10);
    }
    out.append(digit_text(v % 10));
    assert(out@ =~= old(out)@ + decimal_text(v as nat));
}

/// Decimal form of a signed number, as text.
pub fn decimal_i32(v: i32) -> (text: String)
    ensures
        text@ == signed_decimal_text(v as int),
{
    let mut text = String::new();
    if v < 0 {
        proof {
            reveal_strlit("-");
        }
        text.append("-");
        let magnitude: u64 = (0 - (v as i64)) as u64;
        push_decimal(&mut text, magnitude);
        assert(text@ =~= seq!['-'] + decimal_text((-v) as nat));
    } else {
        push_decimal(&mut text, v as u64);
        assert(text@ =~= decimal_text(v as nat));
    }
    text
}

/// The number that a string of decimal digits stands for.
pub open spec fn digits_value(digits: Seq<u8>) -> nat
    decreases digits.len(),
{
    if digits.len() == 0 {
        0
    } else {
        digits_value(digits.drop_last()) * 10 + (digits.last() - 48) as nat
    }
}

/// The decimal form of a number stands for that number.
pub proof fn lemma_decimal_value(n: nat)
    ensures
        digits_value(decimal(n)) == n,
    decreases n,
{
    reveal_strlit("0123456789");
    if n < 10 {
        assert(decimal(n).drop_last() =~= Seq::<u8>::empty());
        assert(digits_value(decimal(n).drop_last()) == 0);
        assert(decimal(n).last() == 48 + n);
    } else {
        lemma_decimal_value(n / 10);
        assert(decimal(n).drop_last() =~= decimal(n / 10));
        assert(decimal(n).last() == 48 + n % 10);
    }
}

/// The decimal form determines the number: two numbers with the same form
/// are the same number.
pub proof fn lemma_decimal_injective(a: nat, b: nat)
    requires
        decimal(a) == decimal(b),
    ensures
        a == b,
{
    lemma_decimal_value(a);
    lemma_decimal_value(b);
}

} // verus!

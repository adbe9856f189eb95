//! Text: decimal numbers, hexadecimal byte strings, lower case, and joining.

use vstd::prelude::*;
use vstd::string::StringExecFns;

verus! {

/// The characters of a number in base ten, without leading zeros.
pub open spec fn decimal_digits(n: nat) -> Seq<char>
    decreases n,
{
    if n < 10 {
        seq![decimal_digit(n)]
    } else {
        decimal_digits(n / 10).push(decimal_digit(n % 10))
    }
}

/// The character of a digit below ten.
pub open spec fn decimal_digit(d: nat) -> char {
    ('0' as u32 + d) as char
}

/// `u64::to_string` of std: the number in base ten.
#[verifier::external_body]
pub(crate) fn decimal(n: u64) -> (text: String)
    ensures
        text@ == decimal_digits(n as nat),
{
    n.to_string()
}

/// The lower case of a text, as Unicode maps it.
pub uninterp spec fn lowercase_of(text: Seq<char>) -> Seq<char>;

/// `str::to_lowercase` of std, by the name `lowercase_of`; the mapping itself (Unicode's) is not
/// spelled out.
#[verifier::external_body]
pub(crate) fn lowercase(text: &str) -> (lower: String)
    ensures
        lower@ == lowercase_of(text@),
{
    text.to_lowercase()
}

/// The value of a hexadecimal digit of either case.
pub open spec fn hex_value(c: char) -> Option<int> {
    if '0' <= c <= '9' {
        Some(c as int - '0' as int)
    } else if 'a' <= c <= 'f' {
        Some(c as int - 'a' as int + 10)
    } else if 'A' <= c <= 'F' {
        Some(c as int - 'A' as int + 10)
    } else {
        None
    }
}

/// Whether a text is made of pairs of hexadecimal digits.
pub open spec fn is_hex(text: Seq<char>) -> bool {
    &&& text.len() % 2 == 0
    &&& forall|i: int| 0 <= i < text.len() ==> hex_value(#[trigger] text[i]) is Some
}

/// The bytes that a hexadecimal text stands for, the high digit of each first.
pub open spec fn hex_bytes(text: Seq<char>) -> Seq<u8> {
    Seq::new(
        text.len() / 2,
        |i: int| (hex_value(text[2 * i])->Some_0 * 16 + hex_value(text[2 * i + 1])->Some_0) as u8,
    )
}

/// The lower case hexadecimal digit of a value below sixteen.
pub open spec fn hex_digit(d: int) -> char {
    if d < 10 {
        ('0' as int + d) as char
    } else {
        ('a' as int + d - 10) as char
    }
}

/// The lower case hexadecimal text of a byte string.
pub open spec fn hex_text(bytes: Seq<u8>) -> Seq<char> {
    Seq::new(
        2 * bytes.len(),
        |i: int|
            if i % 2 == 0 {
                hex_digit(bytes[i / 2] as int / 16)
            } else {
                hex_digit(bytes[i / 2] as int % 16)
            },
    )
}

/// What `hex::decode` says of a text that is not hexadecimal.
pub uninterp spec fn hex_fault(text: Seq<char>) -> Seq<char>;

/// `hex::decode`: succeeds on pairs of hexadecimal digits of either case, and on nothing else,
/// with the bytes that they stand for. An error comes as its message, by the name `hex_fault`.
#[verifier::external_body]
pub(crate) fn decode_hex(text: &str) -> (result: Result<Vec<u8>, String>)
    ensures
        result is Ok <==> is_hex(text@),
        result matches Ok(bytes) ==> bytes@ == hex_bytes(text@),
        result matches Err(message) ==> message@ == hex_fault(text@),
{
    hex::decode(text).map_err(|e| e.to_string())
}

/// `hex::encode`: two lower case digits for each byte, the high one first.
#[verifier::external_body]
pub(crate) fn encode_hex(bytes: &[u8]) -> (text: String)
    ensures
        text@ == hex_text(bytes@),
{
    hex::encode(bytes)
}

/// Decoding gives back the bytes that were encoded.
pub proof fn hex_round_trip(bytes: Seq<u8>)
    ensures
        is_hex(hex_text(bytes)),
        hex_bytes(hex_text(bytes)) == bytes,
{
    let text = hex_text(bytes);
    assert forall|d: int| 0 <= d < 16 implies hex_value(#[trigger] hex_digit(d)) == Some(d) by {}
    assert forall|i: int| 0 <= i < text.len() implies hex_value(#[trigger] text[i]) is Some by {
        let b = bytes[i / 2] as int;
        assert(hex_value(hex_digit(b / 16)) is Some);
        assert(hex_value(hex_digit(b % 16)) is Some);
    }
    assert forall|i: int| 0 <= i < bytes.len() implies #[trigger] hex_bytes(text)[i]
        == bytes[i] by {
        let b = bytes[i] as int;
        assert((2 * i) / 2 == i && (2 * i) % 2 == 0 && (2 * i + 1) / 2 == i && (2 * i + 1) % 2
            == 1);
        assert(hex_value(hex_digit(b / 16)) == Some(b / 16));
        assert(hex_value(hex_digit(b % 16)) == Some(b % 16));
        assert(b / 16 * 16 + b % 16 == b);
    }
    assert(hex_bytes(text) =~= bytes);
}

/// Two texts, one after the other.
pub fn join(first: &str, second: &str) -> (text: String)
    ensures
        text@ == first@ + second@,
{
    let mut text = first.to_string();
    text.append(second);
    text
}

/// Three texts, one after the other.
pub fn join3(first: &str, second: &str, third: &str) -> (text: String)
    ensures
        text@ == first@ + second@ + third@,
{
    let mut text = first.to_string();
    text.append(second);
    text.append(third);
    text
}

/// Four texts, one after the other.
pub fn join4(first: &str, second: &str, third: &str, fourth: &str) -> (text: String)
    ensures
        text@ == first@ + second@ + third@ + fourth@,
{
    let mut text = first.to_string();
    text.append(second);
    text.append(third);
    text.append(fourth);
    text
}

/// A text without any of its dashes.
pub open spec fn without_dashes(text: Seq<char>) -> Seq<char> {
    text.filter(|c: char| c != '-')
}

/// `str::replace` of std, with a dash as the pattern and nothing in its place: every dash leaves,
/// all else stays in order.
#[verifier::external_body]
pub(crate) fn remove_dashes(text: &str) -> (rest: String)
    ensures
        rest@ == without_dashes(text@),
{
    text.replace('-', "")
}

/// Each hexadecimal digit stands for a value below sixteen, letters of either case for the same
/// one, and no other character stands for any.
pub proof fn hex_digits_of_either_case(c: char, d: int)
    requires
        0 <= d < 16,
    ensures
        hex_value(hex_digit(d)) == Some(d),
        d >= 10 ==> hex_value(('A' as int + d - 10) as char) == Some(d),
        hex_value(c) matches Some(value) ==> {
            &&& 0 <= value < 16
            &&& c == hex_digit(value) || (value >= 10 && c == ('A' as int + value - 10) as char)
        },
{
}

/// The number that a text of digits writes in base ten.
pub open spec fn decimal_value(text: Seq<char>) -> int
    decreases text.len(),
{
    if text.len() == 0 {
        0
    } else {
        10 * decimal_value(text.drop_last()) + (text.last() as int - '0' as int)
    }
}

/// The digits of a number write that number, without a leading zero: so different numbers have
/// different digits.
pub proof fn decimal_digits_write_the_number(n: nat)
    ensures
        decimal_value(decimal_digits(n)) == n,
        decimal_digits(n).len() > 0,
        decimal_digits(n)[0] == '0' <==> n == 0,
        forall|i: int|
            0 <= i < decimal_digits(n).len() ==> '0' <= #[trigger] decimal_digits(n)[i] <= '9',
    decreases n,
{
    reveal_with_fuel(decimal_value, 2);
    if n < 10 {
        assert(decimal_digits(n).drop_last() =~= Seq::<char>::empty());
    } else {
        decimal_digits_write_the_number(n / 10);
        assert(decimal_digits(n).drop_last() =~= decimal_digits(n / 10));
        assert forall|i: int| 0 <= i < decimal_digits(n).len() implies '0'
            <= #[trigger] decimal_digits(n)[i] <= '9' by {
            if i < decimal_digits(n / 10).len() {
                assert(decimal_digits(n)[i] == decimal_digits(n / 10)[i]);
            }
        }
        assert(decimal_digits(n)[0] == decimal_digits(n / 10)[0]);
    }
}

} // verus!

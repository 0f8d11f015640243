//! Bytes as hexadecimal digits, and back: what the `hex` crate does, stated.

use vstd::prelude::*;

verus! {

/// The digit, in upper case, of a value below sixteen.
pub open spec fn upper_digit(value: int) -> char {
    seq!['0', '1', '2', '3', '4', '5', '6', '7', '8', '9', 'A', 'B', 'C', 'D', 'E', 'F'][value]
}

/// Two digits in upper case for each byte, the high half first.
pub open spec fn hex_upper(bytes: Seq<u8>) -> Seq<char> {
    Seq::new(
        2 * bytes.len(),
        |i: int|
            if i % 2 == 0 {
                upper_digit(bytes[i / 2] as int / 16)
            } else {
                upper_digit(bytes[i / 2] as int % 16)
            },
    )
}

/// The value of a hexadecimal digit of ASCII, in either case.
pub open spec fn digit_value(digit: u8) -> Option<int> {
    if 0x30 <= digit <= 0x39 {
        Some(digit - 0x30)
    } else if 0x41 <= digit <= 0x46 {
        Some(digit - 0x41 + 10)
    } else if 0x61 <= digit <= 0x66 {
        Some(digit - 0x61 + 10)
    } else {
        None
    }
}

/// Whether `text` is hexadecimal digits, two for each byte.
pub open spec fn decodable(text: Seq<u8>) -> bool {
    text.len() % 2 == 0 && forall|i: int| 0 <= i < text.len() ==> digit_value(#[trigger] text[i]) is Some
}

/// The bytes that the digits of `text` stand for, two digits each, the high half first.
pub open spec fn decoded(text: Seq<u8>) -> Seq<u8> {
    Seq::new(
        text.len() / 2,
        |i: int| (digit_value(text[2 * i]).unwrap() * 16 + digit_value(text[2 * i + 1]).unwrap()) as u8,
    )
}

/// `hex::encode_upper`: two digits in upper case for each byte of `data`, in order.
#[verifier::external_body]
pub(crate) fn encode_upper(data: &[u8]) -> (digits: String)
    ensures
        digits@ == hex_upper(data@),
{
    hex::encode_upper(data)
}

/// `hex::decode`: the bytes that `text` stands for, where it is an even number of
/// hexadecimal digits of ASCII, in either case; nothing where it is not.
#[verifier::external_body]
pub(crate) fn decode(text: &[u8]) -> (bytes: Option<Vec<u8>>)
    ensures
        decodable(text@) ==> bytes is Some && bytes.unwrap()@ == decoded(text@),
        !decodable(text@) ==> bytes is None,
{
    hex::decode(text).ok()
}

/// The digits of bytes followed by the digits of more bytes are the digits of all of
/// them.
pub proof fn hex_upper_joins(first: Seq<u8>, second: Seq<u8>)
    ensures
        hex_upper(first) + hex_upper(second) == hex_upper(first + second),
{
    let joined = hex_upper(first) + hex_upper(second);
    let whole = hex_upper(first + second);
    assert(joined.len() == whole.len());
    assert forall|i: int| 0 <= i < joined.len() implies joined[i] == whole[i] by {
        if i >= 2 * first.len() {
            let j = i - 2 * first.len();
            assert(j / 2 == i / 2 - first.len());
            assert(j % 2 == i % 2);
            assert((first + second)[i / 2] == second[j / 2]);
        } else {
            assert((first + second)[i / 2] == first[i / 2]);
        }
    }
}

/// The digits that bytes are written in are digits of ASCII, none of them white space,
/// and stand for those bytes.
pub proof fn hex_upper_reads_back(bytes: Seq<u8>)
    ensures
        vstd::utf8::is_ascii_chars(hex_upper(bytes)),
        crate::text::blank_free(hex_upper(bytes)),
        decodable(vstd::utf8::encode_utf8(hex_upper(bytes))),
        decoded(vstd::utf8::encode_utf8(hex_upper(bytes))) == bytes,
{
    let digits = hex_upper(bytes);
    assert forall|i: int| 0 <= i < digits.len() implies {
        &&& '\0' <= #[trigger] digits[i] <= '\u{7f}'
        &&& !crate::text::is_blank(digits[i])
        &&& digit_value(digits[i] as u8) == Some(
            if i % 2 == 0 {
                bytes[i / 2] as int / 16
            } else {
                bytes[i / 2] as int % 16
            },
        )
    } by {
        let value = if i % 2 == 0 {
            bytes[i / 2] as int / 16
        } else {
            bytes[i / 2] as int % 16
        };
        assert(0 <= value < 16);
        assert(digits[i] == upper_digit(value));
    }
    vstd::utf8::is_ascii_chars_encode_utf8(digits);
    let text = vstd::utf8::encode_utf8(digits);
    assert forall|i: int| 0 <= i < text.len() implies digit_value(#[trigger] text[i]) is Some by {
        assert(text[i] == digits[i] as u8);
    }
    let back = decoded(text);
    assert(back.len() == bytes.len());
    assert forall|k: int| 0 <= k < bytes.len() implies back[k] == bytes[k] by {
        assert(text[2 * k] == digits[2 * k] as u8);
        assert(text[2 * k + 1] == digits[2 * k + 1] as u8);
        assert((2 * k) / 2 == k && (2 * k) % 2 == 0);
        assert((2 * k + 1) / 2 == k && (2 * k + 1) % 2 == 1);
    }
    assert(back == bytes);
}

} // verus!

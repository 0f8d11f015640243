//! Numbers as the user types them: the field for the baud rate.

use crate::text::{chars_of, decimal, digit, push_text, to_decimal};
use std::num::ParseIntError;
use vstd::prelude::*;

verus! {

/// Whether `c` is a decimal digit of ASCII.
pub open spec fn is_digit(c: char) -> bool {
    '0' <= c <= '9'
}

/// The number that decimal digits spell; none where `digits` is empty or holds
/// anything but digits.
pub open spec fn number(digits: Seq<char>) -> Option<nat>
    decreases digits.len(),
{
    if digits.len() == 0 || !is_digit(digits.last()) {
        None
    } else if digits.len() == 1 {
        Some((digits.last() as u32 - '0' as u32) as nat)
    } else {
        match number(digits.drop_last()) {
            Some(high) => Some(high * 10 + (digits.last() as u32 - '0' as u32) as nat),
            None => None,
        }
    }
}

/// The number that `input` spells: digits, after a plus sign or without one.
pub open spec fn numeral(input: Seq<char>) -> Option<nat> {
    if input.len() > 0 && input[0] == '+' {
        number(input.drop_first())
    } else {
        number(input)
    }
}

/// The first character of `input` that is no digit, where it has one.
pub open spec fn first_non_digit(input: Seq<char>) -> Option<char>
    decreases input.len(),
{
    if input.len() == 0 {
        None
    } else if !is_digit(input[0]) {
        Some(input[0])
    } else {
        first_non_digit(input.drop_first())
    }
}

/// std's error of a number that did not parse, `std::num::ParseIntError`.
#[verifier::external_type_specification]
#[verifier::external_body]
pub struct ExParseIntError(ParseIntError);

/// `str::parse::<u32>`: the number that `input` spells where it spells one that fits,
/// an error where it does not.
#[verifier::external_body]
fn parse_u32(input: &str) -> (parsed: Result<u32, ParseIntError>)
    ensures
        match parsed {
            Ok(value) => numeral(input@) == Some(value as nat),
            Err(_) => !(numeral(input@) matches Some(value) && value <= u32::MAX),
        },
{
    input.parse::<u32>()
}

/// `ToString::to_string` of a `ParseIntError`: what went wrong, in std's words.
#[verifier::external_body]
fn describe(error: &ParseIntError) -> String {
    error.to_string()
}

/// A formatter for numbers in decimal digits.
#[derive(Debug, Clone, Copy, PartialEq, Eq, Structural)]
pub struct NumericFormatter;

/// Why text was refused by a [`NumericFormatter`].
#[derive(Debug, Clone, PartialEq, Eq)]
pub enum NumericValidationError {
    /// The text spells no number that fits; with what went wrong, in words.
    Parse(String),
    /// The text holds this character, which is no digit.
    InvalidChar(char),
}

/// The mathematical value of a [`NumericValidationError`].
pub enum NumericValidationErrorView {
    Parse(Seq<char>),
    InvalidChar(char),
}

impl View for NumericValidationError {
    type V = NumericValidationErrorView;

    open spec fn view(&self) -> NumericValidationErrorView {
        match self {
            NumericValidationError::Parse(text) => NumericValidationErrorView::Parse(text@),
            NumericValidationError::InvalidChar(c) => NumericValidationErrorView::InvalidChar(*c),
        }
    }
}

impl NumericValidationErrorView {
    /// The error in words.
    pub open spec fn message(self) -> Seq<char> {
        match self {
            NumericValidationErrorView::InvalidChar(c) => "Invalid character '"@.push(c) + "'"@,
            NumericValidationErrorView::Parse(text) => "Parse failed: "@ + text,
        }
    }
}

impl NumericValidationError {
    /// The error in words.
    pub fn to_string(&self) -> (message: String)
        ensures
            message@ == self@.message(),
    {
        match self {
            NumericValidationError::InvalidChar(c) => {
                let mut message = "Invalid character '".to_owned();
                message.push(*c);
                push_text(&mut message, "'");
                message
            },
            NumericValidationError::Parse(text) => {
                let mut message = "Parse failed: ".to_owned();
                push_text(&mut message, text.as_str());
                message
            },
        }
    }
}

impl NumericFormatter {
    /// The digits of `value`.
    pub fn format(&self, value: &u32) -> (text: String)
        ensures
            text@ == decimal(*value as nat),
    {
        to_decimal(*value)
    }

    /// The digits of `value`, for editing: the same.
    pub fn format_for_editing(&self, value: &u32) -> (text: String)
        ensures
            text@ == decimal(*value as nat),
    {
        to_decimal(*value)
    }

    /// The number that `input` spells, where it spells one that fits.
    pub fn value(&self, input: &str) -> (value: Result<u32, NumericValidationError>)
        ensures
            match value {
                Ok(value) => numeral(input@) == Some(value as nat),
                Err(error) => error is Parse && !(numeral(input@) matches Some(value) && value
                    <= u32::MAX),
            },
    {
        match parse_u32(input) {
            Ok(value) => Ok(value),
            Err(error) => Err(NumericValidationError::Parse(describe(&error))),
        }
    }

    /// Whether `input` may be the start of a number: it may where it holds digits only,
    /// and is refused with its first character that is no digit where it holds one.
    pub fn validate_partial_input(&self, input: &str) -> (checked: Result<
        (),
        NumericValidationError,
    >)
        ensures
            match first_non_digit(input@) {
                None => checked is Ok,
                Some(c) => checked == Err::<(), NumericValidationError>(
                    NumericValidationError::InvalidChar(c),
                ),
            },
    {
        let chars = chars_of(input);
        let mut i: usize = 0;
        proof {
            assert(chars@.skip(0) == chars@);
        }
        while i < chars.len()
            invariant
                i <= chars.len(),
                chars@ == input@,
                first_non_digit(chars@) == first_non_digit(chars@.skip(i as int)),
            decreases chars.len() - i,
        {
            let c = chars[i];
            proof {
                assert(chars@.skip(i as int).drop_first() == chars@.skip(i + 1));
                assert(chars@.skip(i as int)[0] == c);
            }
            if !('0' <= c && c <= '9') {
                return Err(NumericValidationError::InvalidChar(c));
            }
            i += 1;
        }
        Ok(())
    }
}

/// The digits that a number is written in spell that number: what
/// [`NumericFormatter::format`] writes, [`NumericFormatter::value`] reads back.
pub proof fn formatted_number_reads_back(value: nat)
    ensures
        number(decimal(value)) == Some(value),
        numeral(decimal(value)) == Some(value),
        first_non_digit(decimal(value)) is None,
    decreases value,
{
    let digits = decimal(value);
    let low = digit((value % 10) as int);
    assert(is_digit(low) && (low as u32 - '0' as u32) as nat == value % 10);
    if value < 10 {
        assert(digits == seq![low]);
        assert(digits[0] == low);
        assert(digits.drop_first() == Seq::<char>::empty());
        assert(first_non_digit(digits.drop_first()) is None);
    } else {
        formatted_number_reads_back(value / 10);
        let high = decimal(value / 10);
        assert(digits == high.push(low));
        assert(digits.drop_last() == high);
        assert(high.len() >= 1) by {
            digits_not_empty(value / 10);
        }
        assert(digits[0] == high[0]);
        digits_only(high, low);
    }
}

proof fn digits_not_empty(value: nat)
    ensures
        decimal(value).len() >= 1,
        is_digit(decimal(value)[0]),
    decreases value,
{
    if value >= 10 {
        digits_not_empty(value / 10);
    } else {
        assert(is_digit(digit(value as int)));
    }
}

proof fn digits_only(digits: Seq<char>, last: char)
    requires
        first_non_digit(digits) is None,
        is_digit(last),
    ensures
        first_non_digit(digits.push(last)) is None,
    decreases digits.len(),
{
    let longer = digits.push(last);
    if digits.len() == 0 {
        assert(longer[0] == last);
        assert(longer.drop_first() == Seq::<char>::empty());
        assert(first_non_digit(longer.drop_first()) is None);
    } else {
        digits_only(digits.drop_first(), last);
        assert(longer[0] == digits[0]);
        assert(longer.drop_first() == digits.drop_first().push(last));
    }
}

} // verus!

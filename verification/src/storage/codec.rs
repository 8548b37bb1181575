//! Why stored data cannot be turned into a game, and the conversions between the
//! game's units and the database's signed integers and texts.

use vstd::prelude::*;
use vstd::string::StringExecFns;

use super::validation::fault::SaveValidationError;
use crate::model::units::UtcSeconds;
use crate::text::{characters, decimal, digit};

verus! {

/// A text in double quotes with its special characters escaped.
pub uninterp spec fn debug_quoted(text: Seq<char>) -> Seq<char>;

/// Wraps the `Debug` text of `str`, which depends on the characters alone. How each
/// character is escaped is left to the standard library.
#[verifier::external_body]
fn quote(text: &str) -> (result: String)
    ensures
        result@ == debug_quoted(text@),
{
    format!("{text:?}")
}

/// Why a save could not be decoded.
#[derive(Clone, Debug, PartialEq, Eq)]
pub enum SaveCodecError {
    /// The save was written by a version that this one cannot read.
    UnsupportedVersion { found: u32 },
    /// The decoded game is not valid.
    InvalidState(SaveValidationError),
    /// A stored value is outside the domain of its field.
    InvalidValue { field: &'static str },
    /// A stored Train is of a model that the catalogue does not list.
    TrainModelNotFound { model_name: String },
    /// The text of a save in the first format could not be parsed.
    LegacyDecode(String),
}

impl SaveCodecError {
    /// The message shown to the player.
    pub open spec fn text(self) -> Seq<char> {
        match self {
            SaveCodecError::UnsupportedVersion { found } => "save version "@ + decimal(
                found as nat,
            ) + " is not supported"@,
            SaveCodecError::InvalidState(error) => error.text(),
            SaveCodecError::InvalidValue { field } => "invalid SQLite value for "@ + field@,
            SaveCodecError::TrainModelNotFound { model_name } => "saved Train model "@
                + debug_quoted(model_name@) + " does not exist in the central catalogue"@,
            SaveCodecError::LegacyDecode(message) => "could not decode legacy RON save: "@
                + message@,
        }
    }

    pub fn message(&self) -> (result: String)
        ensures
            result@ == self.text(),
    {
        match self {
            SaveCodecError::UnsupportedVersion { found } => {
                let number = crate::text::decimal_text(*found as u64);
                "save version ".to_owned().concat(number.as_str()).concat(
                    " is not supported",
                )
            },
            SaveCodecError::InvalidState(error) => error.message(),
            SaveCodecError::InvalidValue { field } => "invalid SQLite value for ".to_owned().concat(
                field,
            ),
            SaveCodecError::TrainModelNotFound { model_name } => {
                let name = quote(model_name.as_str());
                "saved Train model ".to_owned().concat(name.as_str()).concat(
                    " does not exist in the central catalogue",
                )
            },
            SaveCodecError::LegacyDecode(message) => "could not decode legacy RON save: ".to_owned().concat(
            message.as_str()),
        }
    }
}

/// The outcome of reading a value of which `fault` is the field that is wrong, if any.
pub open spec fn refused<T>(result: Result<T, SaveCodecError>, fault: Option<&'static str>) -> bool {
    match result {
        Ok(_) => fault is None,
        Err(error) => fault is Some && error == (SaveCodecError::InvalidValue { field: fault->0 }),
    }
}

/// A stored row that cannot be decoded, with the field that is wrong.
#[derive(Clone, Copy, Debug, PartialEq, Eq)]
pub struct RowError {
    pub field: &'static str,
}

/// The outcome of decoding a row of which `fault` is the field that is wrong, if any.
pub open spec fn undecoded<T>(result: Result<T, RowError>, fault: Option<&'static str>) -> bool {
    match result {
        Ok(_) => fault is None,
        Err(error) => fault is Some && error == (RowError { field: fault->0 }),
    }
}

/// Why stored tables hold no game.
#[derive(Clone, Debug, PartialEq, Eq)]
pub enum LoadError {
    /// A row cannot be decoded, which is a failure of the database: what was being done, and
    /// the field that is wrong.
    Row { action: &'static str, field: &'static str },
    /// The rows were decoded, and what they say is no valid save.
    Save(SaveCodecError),
}

/// What is being done when a row of a table is decoded.
pub const DECODE_ROW: &'static str = "decode row from";

/// The failure of a table whose rows have a field that is wrong, if any.
pub open spec fn row_fault(action: &'static str, fault: Option<&'static str>) -> Option<LoadError> {
    match fault {
        Some(field) => Some(LoadError::Row { action, field }),
        None => None,
    }
}

/// The failure of a save of which a decoded value is wrong, if any.
pub open spec fn value_fault(fault: Option<&'static str>) -> Option<LoadError> {
    match fault {
        Some(field) => Some(LoadError::Save(SaveCodecError::InvalidValue { field })),
        None => None,
    }
}

/// The first of two failures.
pub open spec fn first_fault(first: Option<LoadError>, second: Option<LoadError>) -> Option<
    LoadError,
> {
    if first is Some {
        first
    } else {
        second
    }
}

/// The outcome of loading tables of which `fault` is the first failure, if any.
pub open spec fn unloaded<T>(result: Result<T, LoadError>, fault: Option<LoadError>) -> bool {
    match result {
        Ok(_) => fault is None,
        Err(error) => fault == Some(error),
    }
}

/// The failure of the table that a row belongs to.
pub fn failed_row(action: &'static str, error: RowError) -> (result: LoadError)
    ensures
        result == (LoadError::Row { action, field: error.field }),
{
    LoadError::Row { action, field: error.field }
}

/// The failure of a save of which a decoded value is wrong.
pub fn invalid_value(field: &'static str) -> (result: LoadError)
    ensures
        result == LoadError::Save(SaveCodecError::InvalidValue { field }),
{
    LoadError::Save(SaveCodecError::InvalidValue { field })
}

/// Decodes an unsigned value of a row.
pub fn row_u64(value: i64, field: &'static str) -> (result: Result<u64, RowError>)
    ensures
        match result {
            Ok(read) => read == value,
            Err(error) => value < 0 && error == (RowError { field }),
        },
{
    if value < 0 {
        Err(RowError { field })
    } else {
        Ok(value as u64)
    }
}

/// Decodes a 32-bit count of a row.
pub fn row_u32(value: i64, field: &'static str) -> (result: Result<u32, RowError>)
    ensures
        match result {
            Ok(read) => read == value,
            Err(error) => !fits_u32(value) && error == (RowError { field }),
        },
{
    if value < 0 || value > u32::MAX as i64 {
        Err(RowError { field })
    } else {
        Ok(value as u32)
    }
}

/// Stores an unsigned value in the database's signed unit.
pub fn to_db_u64(value: u64, field: &'static str) -> (result: Result<i64, SaveCodecError>)
    ensures
        match result {
            Ok(stored) => stored == value,
            Err(error) => value > i64::MAX && error == (SaveCodecError::InvalidValue { field }),
        },
{
    if value > i64::MAX as u64 {
        Err(SaveCodecError::InvalidValue { field })
    } else {
        Ok(value as i64)
    }
}

/// Reads an unsigned value from the database's signed unit.
pub fn from_db_u64(value: i64, field: &'static str) -> (result: Result<u64, SaveCodecError>)
    ensures
        match result {
            Ok(read) => read == value,
            Err(error) => value < 0 && error == (SaveCodecError::InvalidValue { field }),
        },
{
    if value < 0 {
        Err(SaveCodecError::InvalidValue { field })
    } else {
        Ok(value as u64)
    }
}

pub open spec fn fits_u32(value: i64) -> bool {
    0 <= value <= u32::MAX
}

/// Reads a 32-bit count from the database's signed unit.
pub fn from_db_u32(value: i64, field: &'static str) -> (result: Result<u32, SaveCodecError>)
    ensures
        match result {
            Ok(read) => read == value,
            Err(error) => !fits_u32(value) && error == (SaveCodecError::InvalidValue { field }),
        },
{
    if value < 0 || value > u32::MAX as i64 {
        Err(SaveCodecError::InvalidValue { field })
    } else {
        Ok(value as u32)
    }
}

pub open spec fn optional_seconds(time: Option<UtcSeconds>) -> Option<i64> {
    match time {
        Some(time) => Some(time.seconds),
        None => None,
    }
}

pub fn store_time(time: Option<UtcSeconds>) -> (result: Option<i64>)
    ensures
        result == optional_seconds(time),
{
    match time {
        Some(time) => Some(time.seconds),
        None => None,
    }
}

pub fn read_time(seconds: Option<i64>) -> (result: Option<UtcSeconds>)
    ensures
        optional_seconds(result) == seconds,
{
    match seconds {
        Some(seconds) => Some(UtcSeconds { seconds }),
        None => None,
    }
}

/// The position of a row in its table. A position beyond the unit is stored as its maximum.
pub open spec fn stored_position(index: int) -> int {
    if index <= i64::MAX {
        index
    } else {
        i64::MAX as int
    }
}

pub fn store_position(index: usize) -> (result: i64)
    ensures
        result == stored_position(index as int),
{
    if index as u64 > i64::MAX as u64 {
        i64::MAX
    } else {
        index as i64
    }
}

pub open spec fn is_decimal_digit(character: char) -> bool {
    '0' <= character <= '9'
}

/// The value of a sequence of decimal digits.
pub open spec fn digits_value(digits: Seq<char>) -> int
    decreases digits.len(),
{
    if digits.len() == 0 {
        0
    } else {
        10 * digits_value(digits.drop_last()) + (digits.last() as u32 - '0' as u32)
    }
}

/// The digits of a number's text, behind an optional plus sign.
pub open spec fn number_digits(text: Seq<char>) -> Seq<char> {
    if text.len() > 0 && text[0] == '+' {
        text.drop_first()
    } else {
        text
    }
}

pub open spec fn is_number(text: Seq<char>) -> bool {
    let digits = number_digits(text);
    &&& digits.len() > 0
    &&& forall|i: int| 0 <= i < digits.len() ==> is_decimal_digit(#[trigger] digits[i])
    &&& digits_value(digits) <= u64::MAX
}

proof fn lemma_digits_grow(digits: Seq<char>, count: int)
    requires
        0 <= count <= digits.len(),
        forall|i: int| 0 <= i < digits.len() ==> is_decimal_digit(#[trigger] digits[i]),
    ensures
        0 <= digits_value(digits.take(count)) <= digits_value(digits),
    decreases digits.len(),
{
    if digits.len() == 0 {
        assert(digits.take(count) =~= digits);
    } else {
        let shorter = digits.drop_last();
        assert forall|i: int| 0 <= i < shorter.len() implies is_decimal_digit(
            #[trigger] shorter[i],
        ) by {
            assert(shorter[i] == digits[i]);
        }
        if count == digits.len() {
            assert(digits.take(count) =~= digits);
            lemma_digits_grow(shorter, 0);
            assert(shorter.take(0) =~= Seq::<char>::empty());
            assert(is_decimal_digit(digits[digits.len() - 1]));
        } else {
            lemma_digits_grow(shorter, count);
            assert(shorter.take(count) =~= digits.take(count));
            assert(is_decimal_digit(digits[digits.len() - 1]));
        }
    }
}

/// Reads an unsigned decimal number, which may carry a plus sign.
pub fn parse_u64(text: &str) -> (result: Option<u64>)
    ensures
        match result {
            Some(value) => is_number(text@) && value == digits_value(number_digits(text@)),
            None => !is_number(text@),
        },
{
    let all = characters(text);
    let start: usize = if all.len() > 0 && all[0] == '+' {
        1
    } else {
        0
    };
    let ghost digits = number_digits(text@);
    assert(digits =~= all@.skip(start as int));
    if all.len() == start {
        return None;
    }
    let mut value: u64 = 0;
    let mut i: usize = start;
    while i < all.len()
        invariant
            start <= i <= all.len(),
            start <= 1,
            digits == all@.skip(start as int),
            digits == number_digits(text@),
            digits.len() == all.len() - start,
            forall|j: int| 0 <= j < i - start ==> is_decimal_digit(#[trigger] digits[j]),
            value == digits_value(digits.take(i - start)),
        decreases all.len() - i,
    {
        let character = all[i];
        assert(digits[i - start] == character);
        if !('0' <= character && character <= '9') {
            assert(!is_decimal_digit(digits[i - start]));
            return None;
        }
        let ghost next = digits.take(i + 1 - start);
        assert(next.drop_last() =~= digits.take(i - start));
        assert(next.last() == character);
        let unit: u64 = (character as u32 - '0' as u32) as u64;
        assert(digits_value(next) == 10 * value + unit);
        match value.checked_mul(10) {
            Some(tens) => match tens.checked_add(unit) {
                Some(sum) => {
                    value = sum;
                },
                None => {
                    proof {
                        lemma_number_too_large(digits, i + 1 - start);
                    }
                    return None;
                },
            },
            None => {
                proof {
                    lemma_number_too_large(digits, i + 1 - start);
                }
                return None;
            },
        }
        i += 1;
    }
    assert(digits.take(all.len() - start) =~= digits);
    Some(value)
}

proof fn lemma_number_too_large(digits: Seq<char>, count: int)
    requires
        0 <= count <= digits.len(),
        digits_value(digits.take(count)) > u64::MAX,
    ensures
        !(digits_value(digits) <= u64::MAX && forall|i: int|
            0 <= i < digits.len() ==> is_decimal_digit(#[trigger] digits[i])),
{
    if forall|i: int| 0 <= i < digits.len() ==> is_decimal_digit(#[trigger] digits[i]) {
        lemma_digits_grow(digits, count);
    }
}

/// The decimal notation of a number reads back as the number.
pub proof fn decimal_reads_back(value: nat)
    requires
        value <= u64::MAX,
    ensures
        is_number(decimal(value)),
        digits_value(number_digits(decimal(value))) == value,
{
    lemma_decimal_digits(value);
    assert(decimal(value)[0] != '+');
}

proof fn lemma_decimal_digits(value: nat)
    ensures
        decimal(value).len() > 0,
        forall|i: int| 0 <= i < decimal(value).len() ==> is_decimal_digit(#[trigger] decimal(value)[i]),
        digits_value(decimal(value)) == value,
    decreases value,
{
    let text = decimal(value);
    if value < 10 {
        assert(text.drop_last() =~= Seq::<char>::empty());
        assert(digits_value(text.drop_last()) == 0);
        assert(text.last() == digit(value as int));
    } else {
        lemma_decimal_digits(value / 10);
        assert(text.drop_last() =~= decimal(value / 10));
        assert(text.last() == digit((value % 10) as int));
    }
}

} // verus!

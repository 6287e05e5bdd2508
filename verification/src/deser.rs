//! Reading timestamps and scores out of loosely typed fields.

use crate::radix::{from_str_radix, parse_i64};
use vstd::prelude::*;

verus! {

/// What a field of a record held before it was given a type.
#[derive(Debug, Clone)]
pub enum RawValue {
    Null,
    Bool(bool),
    /// A whole number within the signed 64-bit range.
    Integer(i64),
    /// A whole number that is not negative.
    Unsigned(u64),
    /// A number with a fraction or an exponent, rounded to the nearest whole
    /// number.
    Rounded(i64),
    Text(String),
    /// A list or an object.
    Other,
}

/// Why a field was refused.
#[derive(Debug, Clone, Copy, PartialEq, Eq, Structural)]
pub enum DeserError {
    /// The field holds neither a number nor a text.
    InvalidTimestamp,
    /// The number is too large for a timestamp.
    TimestampOutOfRange,
    /// The text is no decimal integer of 64 bits.
    InvalidTimestampText,
    /// The number is no whole number within the signed 64-bit range.
    InvalidScore,
    /// The text is no decimal integer of 64 bits.
    UnparsableScore,
}

impl DeserError {
    /// What to tell the user.
    pub open spec fn message_text(self) -> Seq<char> {
        match self {
            DeserError::InvalidTimestamp => "invalid timestamp value"@,
            DeserError::TimestampOutOfRange => "out of range integral type conversion attempted"@,
            DeserError::InvalidTimestampText => "unable to parse timestamp"@,
            DeserError::InvalidScore => "invalid score value"@,
            DeserError::UnparsableScore => "unable to parse score"@,
        }
    }

    pub fn message(self) -> (text: &'static str)
        ensures
            text@ == self.message_text(),
    {
        match self {
            DeserError::InvalidTimestamp => "invalid timestamp value",
            DeserError::TimestampOutOfRange => "out of range integral type conversion attempted",
            DeserError::InvalidTimestampText => "unable to parse timestamp",
            DeserError::InvalidScore => "invalid score value",
            DeserError::UnparsableScore => "unable to parse score",
        }
    }
}

/// The timestamp that a field stands for. A whole number stands for itself
/// if it fits, a fractional number for its rounding, a text for the decimal
/// integer it spells.
pub open spec fn time_of(value: RawValue) -> Result<i64, DeserError> {
    match value {
        RawValue::Integer(time) => Ok(time),
        RawValue::Unsigned(time) => if time <= i64::MAX {
            Ok(time as i64)
        } else {
            Err(DeserError::TimestampOutOfRange)
        },
        RawValue::Rounded(time) => Ok(time),
        RawValue::Text(text) => match parse_i64(text@, 10) {
            Some(time) => Ok(time),
            None => Err(DeserError::InvalidTimestampText),
        },
        _ => Err(DeserError::InvalidTimestamp),
    }
}

/// The timestamp that a field stands for where it may be absent: a null and
/// a truth value stand for no timestamp.
pub open spec fn optional_time_of(value: RawValue) -> Result<Option<i64>, DeserError> {
    match value {
        RawValue::Null => Ok(None),
        RawValue::Bool(_) => Ok(None),
        _ => match time_of(value) {
            Ok(time) => Ok(Some(time)),
            Err(error) => Err(error),
        },
    }
}

/// The score that a field stands for: a whole number within the signed
/// range, the decimal integer that a text spells, or none for a null.
pub open spec fn score_of(value: RawValue) -> Result<Option<i64>, DeserError> {
    match value {
        RawValue::Integer(score) => Ok(Some(score)),
        RawValue::Unsigned(score) => if score <= i64::MAX {
            Ok(Some(score as i64))
        } else {
            Err(DeserError::InvalidScore)
        },
        RawValue::Rounded(_) => Err(DeserError::InvalidScore),
        RawValue::Text(text) => match parse_i64(text@, 10) {
            Some(score) => Ok(Some(score)),
            None => Err(DeserError::UnparsableScore),
        },
        RawValue::Null => Ok(None),
        _ => Err(DeserError::InvalidTimestamp),
    }
}

/// Reads a timestamp.
pub fn deserialize_time(value: &RawValue) -> (time: Result<i64, DeserError>)
    ensures
        time == time_of(*value),
{
    match value {
        RawValue::Integer(time) => Ok(*time),
        RawValue::Unsigned(time) => {
            if *time <= 0x7fff_ffff_ffff_ffff {
                Ok(*time as i64)
            } else {
                Err(DeserError::TimestampOutOfRange)
            }
        },
        RawValue::Rounded(time) => Ok(*time),
        RawValue::Text(text) => match from_str_radix(text.as_str(), 10) {
            Some(time) => Ok(time),
            None => Err(DeserError::InvalidTimestampText),
        },
        _ => Err(DeserError::InvalidTimestamp),
    }
}

/// Reads a timestamp that may be absent.
pub fn deserialize_optional_time(value: &RawValue) -> (time: Result<Option<i64>, DeserError>)
    ensures
        time == optional_time_of(*value),
{
    match value {
        RawValue::Null => Ok(None),
        RawValue::Bool(_) => Ok(None),
        _ => match deserialize_time(value) {
            Ok(time) => Ok(Some(time)),
            Err(error) => Err(error),
        },
    }
}

/// Reads a score.
pub fn deserialize_score(value: &RawValue) -> (score: Result<Option<i64>, DeserError>)
    ensures
        score == score_of(*value),
{
    match value {
        RawValue::Integer(score) => Ok(Some(*score)),
        RawValue::Unsigned(score) => {
            if *score <= 0x7fff_ffff_ffff_ffff {
                Ok(Some(*score as i64))
            } else {
                Err(DeserError::InvalidScore)
            }
        },
        RawValue::Rounded(_) => Err(DeserError::InvalidScore),
        RawValue::Text(text) => match from_str_radix(text.as_str(), 10) {
            Some(score) => Ok(Some(score)),
            None => Err(DeserError::UnparsableScore),
        },
        RawValue::Null => Ok(None),
        _ => Err(DeserError::InvalidTimestamp),
    }
}

} // verus!

use pushshift_importer::deser::{
    deserialize_optional_time, deserialize_score, deserialize_time, DeserError, RawValue,
};

fn text(value: &str) -> RawValue {
    RawValue::Text(value.to_string())
}

#[test]
fn time_of_each_kind_of_field() {
    assert_eq!(deserialize_time(&RawValue::Integer(1712016498)), Ok(1712016498));
    assert_eq!(deserialize_time(&RawValue::Integer(-5)), Ok(-5));
    assert_eq!(deserialize_time(&RawValue::Unsigned(7)), Ok(7));
    assert_eq!(deserialize_time(&RawValue::Unsigned(i64::MAX as u64)), Ok(i64::MAX));
    assert_eq!(
        deserialize_time(&RawValue::Unsigned(i64::MAX as u64 + 1)),
        Err(DeserError::TimestampOutOfRange)
    );
    assert_eq!(deserialize_time(&RawValue::Rounded(1712016499)), Ok(1712016499));
    assert_eq!(deserialize_time(&text("1712016498")), Ok(1712016498));
    assert_eq!(deserialize_time(&text("-12")), Ok(-12));
    assert_eq!(deserialize_time(&text("12.5")), Err(DeserError::InvalidTimestampText));
    assert_eq!(deserialize_time(&text("")), Err(DeserError::InvalidTimestampText));
    assert_eq!(deserialize_time(&text("1a")), Err(DeserError::InvalidTimestampText));
    assert_eq!(deserialize_time(&RawValue::Null), Err(DeserError::InvalidTimestamp));
    assert_eq!(deserialize_time(&RawValue::Bool(true)), Err(DeserError::InvalidTimestamp));
    assert_eq!(deserialize_time(&RawValue::Other), Err(DeserError::InvalidTimestamp));
}

#[test]
fn optional_time_of_each_kind_of_field() {
    assert_eq!(deserialize_optional_time(&RawValue::Null), Ok(None));
    assert_eq!(deserialize_optional_time(&RawValue::Bool(false)), Ok(None));
    assert_eq!(deserialize_optional_time(&RawValue::Bool(true)), Ok(None));
    assert_eq!(deserialize_optional_time(&RawValue::Integer(3)), Ok(Some(3)));
    assert_eq!(deserialize_optional_time(&RawValue::Unsigned(3)), Ok(Some(3)));
    assert_eq!(
        deserialize_optional_time(&RawValue::Unsigned(u64::MAX)),
        Err(DeserError::TimestampOutOfRange)
    );
    assert_eq!(deserialize_optional_time(&RawValue::Rounded(4)), Ok(Some(4)));
    assert_eq!(deserialize_optional_time(&text("1500000000")), Ok(Some(1500000000)));
    assert_eq!(
        deserialize_optional_time(&text("soon")),
        Err(DeserError::InvalidTimestampText)
    );
    assert_eq!(deserialize_optional_time(&RawValue::Other), Err(DeserError::InvalidTimestamp));
}

#[test]
fn score_of_each_kind_of_field() {
    assert_eq!(deserialize_score(&RawValue::Integer(1)), Ok(Some(1)));
    assert_eq!(deserialize_score(&RawValue::Integer(-40)), Ok(Some(-40)));
    assert_eq!(deserialize_score(&RawValue::Unsigned(9)), Ok(Some(9)));
    assert_eq!(deserialize_score(&RawValue::Unsigned(u64::MAX)), Err(DeserError::InvalidScore));
    assert_eq!(deserialize_score(&RawValue::Rounded(2)), Err(DeserError::InvalidScore));
    assert_eq!(deserialize_score(&text("10")), Ok(Some(10)));
    assert_eq!(deserialize_score(&text("+10")), Ok(Some(10)));
    assert_eq!(deserialize_score(&text("ten")), Err(DeserError::UnparsableScore));
    assert_eq!(deserialize_score(&RawValue::Null), Ok(None));
    assert_eq!(deserialize_score(&RawValue::Bool(true)), Err(DeserError::InvalidTimestamp));
    assert_eq!(deserialize_score(&RawValue::Other), Err(DeserError::InvalidTimestamp));
}

#[test]
fn deser_error_messages() {
    assert_eq!(DeserError::InvalidTimestamp.message(), "invalid timestamp value");
    assert_eq!(
        DeserError::TimestampOutOfRange.message(),
        "out of range integral type conversion attempted"
    );
    assert_eq!(DeserError::InvalidTimestampText.message(), "unable to parse timestamp");
    assert_eq!(DeserError::InvalidScore.message(), "invalid score value");
    assert_eq!(DeserError::UnparsableScore.message(), "unable to parse score");
}

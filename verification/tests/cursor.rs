use chrono::NaiveDateTime;
use deeplynx_loader::cursor::{
    cursor_of, cursor_of_written, instant_cursor, resume_cursor, LastRecord, ResumeCursor,
    StoredValue, TimeUnit,
};
use deeplynx_loader::errors::LoaderError;

fn text(s: &str) -> Result<Option<String>, LoaderError> {
    Ok(Some(s.to_string()))
}

#[test]
fn numbers_and_truth_values_become_decimal_text() {
    assert_eq!(cursor_of(&StoredValue::Boolean(true)), text("true"));
    assert_eq!(cursor_of(&StoredValue::Boolean(false)), text("false"));
    assert_eq!(cursor_of(&StoredValue::Integer(0)), text("0"));
    assert_eq!(cursor_of(&StoredValue::Integer(-128)), text("-128"));
    assert_eq!(cursor_of(&StoredValue::Integer(u64::MAX as i128)), text("18446744073709551615"));
    assert_eq!(
        cursor_of(&StoredValue::Integer(i128::MIN)),
        text("-170141183460469231731687303715884105728")
    );
    assert_eq!(cursor_of(&StoredValue::Date(19723)), text("19723"));
    assert_eq!(cursor_of(&StoredValue::Date(-1)), text("-1"));
}

#[test]
fn floating_fixed_point_and_text_values_are_used_verbatim() {
    assert_eq!(cursor_of(&StoredValue::Floating("1.5".to_string())), text("1.5"));
    assert_eq!(cursor_of(&StoredValue::FixedPoint("12.340".to_string())), text("12.340"));
    assert_eq!(
        cursor_of(&StoredValue::Text("2024-01-01 00:00:00".to_string())),
        text("2024-01-01 00:00:00")
    );
    assert_eq!(cursor_of(&StoredValue::Text(String::new())), text(""));
}

#[test]
fn a_null_has_no_cursor() {
    assert_eq!(cursor_of(&StoredValue::Null), Ok(None));
}

#[test]
fn instants_become_calendar_text() {
    assert_eq!(
        cursor_of(&StoredValue::Timestamp(TimeUnit::Second, 1_704_067_200)),
        text("2024-01-01 00:00:00")
    );
    assert_eq!(
        cursor_of(&StoredValue::Timestamp(TimeUnit::Millisecond, 1_704_067_200_999)),
        text("2024-01-01 00:00:00")
    );
    assert_eq!(
        cursor_of(&StoredValue::Timestamp(TimeUnit::Microsecond, 1_704_067_261_000_001)),
        text("2024-01-01 00:01:01")
    );
    assert_eq!(cursor_of(&StoredValue::Timestamp(TimeUnit::Second, 0)), text("1970-01-01 00:00:00"));
    assert_eq!(
        cursor_of(&StoredValue::Timestamp(TimeUnit::Second, -1)),
        text("1969-12-31 23:59:59")
    );
    assert_eq!(
        cursor_of(&StoredValue::Timestamp(TimeUnit::Millisecond, -1)),
        text("1969-12-31 23:59:59")
    );
}

#[test]
fn times_are_written_like_instants() {
    assert_eq!(cursor_of(&StoredValue::Time(TimeUnit::Second, 3661)), text("1970-01-01 01:01:01"));
    assert_eq!(
        cursor_of(&StoredValue::Time(TimeUnit::Microsecond, 86_399_000_000)),
        text("1970-01-01 23:59:59")
    );
    assert_eq!(instant_cursor(TimeUnit::Millisecond, 1_000), text("1970-01-01 00:00:01"));
}

#[test]
fn nanoseconds_give_no_cursor_and_no_error() {
    assert_eq!(cursor_of(&StoredValue::Timestamp(TimeUnit::Nanosecond, 0)), Ok(None));
    assert_eq!(cursor_of(&StoredValue::Timestamp(TimeUnit::Nanosecond, i64::MAX)), Ok(None));
    assert_eq!(cursor_of(&StoredValue::Timestamp(TimeUnit::Nanosecond, i64::MIN)), Ok(None));
    assert_eq!(cursor_of(&StoredValue::Time(TimeUnit::Nanosecond, 1_704_067_200)), Ok(None));
}

#[test]
fn an_instant_outside_the_calendar_is_a_database_error() {
    assert_eq!(
        cursor_of(&StoredValue::Timestamp(TimeUnit::Second, i64::MAX)),
        Err(LoaderError::Database)
    );
    assert_eq!(
        cursor_of(&StoredValue::Timestamp(TimeUnit::Second, i64::MIN)),
        Err(LoaderError::Database)
    );
    assert_eq!(
        cursor_of(&StoredValue::Time(TimeUnit::Second, i64::MAX)),
        Err(LoaderError::Database)
    );
}

#[test]
fn bytes_that_are_text_give_that_text() {
    assert_eq!(cursor_of(&StoredValue::Bytes(b"2024-01-01".to_vec())), text("2024-01-01"));
    assert_eq!(cursor_of(&StoredValue::Bytes("grüße ✓".as_bytes().to_vec())), text("grüße ✓"));
    assert_eq!(cursor_of(&StoredValue::Bytes(Vec::new())), text(""));
}

#[test]
fn bytes_that_are_no_text_are_an_encoding_error() {
    assert_eq!(
        cursor_of(&StoredValue::Bytes(vec![0xff, 0xfe])),
        Err(LoaderError::InvalidCursorEncoding)
    );
    assert_eq!(
        cursor_of(&StoredValue::Bytes(vec![b'a', 0xc3])),
        Err(LoaderError::InvalidCursorEncoding)
    );
    assert_eq!(
        cursor_of(&StoredValue::Bytes(vec![0xed, 0xa0, 0x80])),
        Err(LoaderError::InvalidCursorEncoding)
    );
}

#[test]
fn cursor_text_reads_back_as_the_stored_value() {
    for b in [true, false] {
        let written = cursor_of(&StoredValue::Boolean(b)).unwrap().unwrap();
        assert_eq!(written.parse::<bool>().ok(), Some(b));
    }
    for i in [0i128, 7, -7, i64::MAX as i128, i128::MAX, i128::MIN] {
        let written = cursor_of(&StoredValue::Integer(i)).unwrap().unwrap();
        assert_eq!(written.parse::<i128>().ok(), Some(i));
    }
    for seconds in [0i64, 1_704_067_200, -86_400, 253_402_300_799] {
        for (unit, scale) in [
            (TimeUnit::Second, 1i64),
            (TimeUnit::Millisecond, 1_000),
            (TimeUnit::Microsecond, 1_000_000),
        ] {
            let written =
                cursor_of(&StoredValue::Timestamp(unit, seconds * scale)).unwrap().unwrap();
            let read = NaiveDateTime::parse_from_str(&written, "%Y-%m-%d %H:%M:%S").unwrap();
            assert_eq!(read.and_utc().timestamp(), seconds);
        }
    }
}

fn record(value: StoredValue, secondary: Option<StoredValue>) -> LastRecord {
    LastRecord { timestamp_or_index: value, secondary_index: secondary }
}

#[test]
fn resolves_a_cursor_with_its_secondary_position() {
    let row = record(
        StoredValue::Timestamp(TimeUnit::Microsecond, 1_704_067_200_000_000),
        Some(StoredValue::Integer(42)),
    );
    assert_eq!(
        resume_cursor(&row, true),
        Ok(Some(ResumeCursor { primary: "2024-01-01 00:00:00".to_string(), secondary: Some(42) }))
    );
}

#[test]
fn ignores_the_secondary_column_when_none_is_configured() {
    let row = record(StoredValue::Integer(5), Some(StoredValue::Integer(42)));
    assert_eq!(
        resume_cursor(&row, false),
        Ok(Some(ResumeCursor { primary: "5".to_string(), secondary: None }))
    );
    let bare = record(StoredValue::Integer(5), None);
    assert_eq!(
        resume_cursor(&bare, false),
        Ok(Some(ResumeCursor { primary: "5".to_string(), secondary: None }))
    );
}

#[test]
fn a_configured_secondary_index_has_to_be_an_unsigned_number() {
    let missing = record(StoredValue::Integer(5), None);
    assert_eq!(resume_cursor(&missing, true), Err(LoaderError::StoreError));
    let null = record(StoredValue::Integer(5), Some(StoredValue::Null));
    assert_eq!(resume_cursor(&null, true), Err(LoaderError::StoreError));
    let negative = record(StoredValue::Integer(5), Some(StoredValue::Integer(-1)));
    assert_eq!(resume_cursor(&negative, true), Err(LoaderError::StoreError));
    let wide = record(StoredValue::Integer(5), Some(StoredValue::Integer(u64::MAX as i128 + 1)));
    assert_eq!(resume_cursor(&wide, true), Err(LoaderError::StoreError));
    let words = record(StoredValue::Integer(5), Some(StoredValue::Text("42".to_string())));
    assert_eq!(resume_cursor(&words, true), Err(LoaderError::StoreError));
    let largest = record(StoredValue::Integer(5), Some(StoredValue::Integer(u64::MAX as i128)));
    assert_eq!(
        resume_cursor(&largest, true),
        Ok(Some(ResumeCursor { primary: "5".to_string(), secondary: Some(u64::MAX) }))
    );
}

#[test]
fn the_secondary_index_is_read_before_the_timestamp() {
    let row = record(StoredValue::Bytes(vec![0xff]), Some(StoredValue::Null));
    assert_eq!(resume_cursor(&row, true), Err(LoaderError::StoreError));
    let row = record(StoredValue::Bytes(vec![0xff]), Some(StoredValue::Integer(1)));
    assert_eq!(resume_cursor(&row, true), Err(LoaderError::InvalidCursorEncoding));
}

#[test]
fn a_row_without_cursor_text_gives_no_cursor() {
    let nanos = record(
        StoredValue::Timestamp(TimeUnit::Nanosecond, 1),
        Some(StoredValue::Integer(3)),
    );
    assert_eq!(resume_cursor(&nanos, true), Ok(None));
    let null = record(StoredValue::Null, None);
    assert_eq!(resume_cursor(&null, false), Ok(None));
}

#[test]
fn an_instant_that_was_not_written_is_a_database_error() {
    assert_eq!(cursor_of_written(None), Err(LoaderError::Database));
    assert_eq!(cursor_of_written(Some("2024-01-01 00:00:00".to_string())), text("2024-01-01 00:00:00"));
}

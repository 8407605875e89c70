//! The resume cursor: where a table's newest row stands, written in the one
//! form that the remote service reads.

use crate::bindings::{
    civil_text_of_micros, civil_text_of_millis, civil_text_of_seconds, format_micros,
    format_millis, format_seconds, text_of_utf8, INSTANT_PATTERN,
};
use crate::errors::{LoaderError, LoaderErrorView};
use crate::text::{
    bool_text, signed_decimal, signed_value, text_of_bool, text_of_i128, text_view,
};
use vstd::prelude::*;
use vstd::string::*;
use vstd::utf8::*;

verus! {

/// The unit in which a stored instant is counted.
#[derive(Debug, Clone, Copy, PartialEq, Eq, Structural)]
pub enum TimeUnit {
    Second,
    Millisecond,
    Microsecond,
    Nanosecond,
}

/// A value as the local store holds it. Every integer kind of the store is an
/// `Integer`; floating and fixed-point numbers come as the decimal text in
/// which the store writes them.
#[derive(Debug, Clone, PartialEq, Eq)]
pub enum StoredValue {
    Null,
    Boolean(bool),
    Integer(i128),
    Floating(String),
    FixedPoint(String),
    /// An instant, counted from the Unix epoch in the given unit.
    Timestamp(TimeUnit, i64),
    Text(String),
    Bytes(Vec<u8>),
    /// A date, counted in days.
    Date(i32),
    /// A time, counted in the given unit.
    Time(TimeUnit, i64),
}

/// A `StoredValue` with its text and bytes as sequences.
pub enum StoredValueView {
    Null,
    Boolean(bool),
    Integer(i128),
    Floating(Seq<char>),
    FixedPoint(Seq<char>),
    Timestamp(TimeUnit, i64),
    Text(Seq<char>),
    Bytes(Seq<u8>),
    Date(i32),
    Time(TimeUnit, i64),
}

impl View for StoredValue {
    type V = StoredValueView;

    open spec fn view(&self) -> StoredValueView {
        match self {
            StoredValue::Null => StoredValueView::Null,
            StoredValue::Boolean(b) => StoredValueView::Boolean(*b),
            StoredValue::Integer(i) => StoredValueView::Integer(*i),
            StoredValue::Floating(t) => StoredValueView::Floating(t@),
            StoredValue::FixedPoint(t) => StoredValueView::FixedPoint(t@),
            StoredValue::Timestamp(unit, count) => StoredValueView::Timestamp(*unit, *count),
            StoredValue::Text(t) => StoredValueView::Text(t@),
            StoredValue::Bytes(b) => StoredValueView::Bytes(b@),
            StoredValue::Date(d) => StoredValueView::Date(*d),
            StoredValue::Time(unit, count) => StoredValueView::Time(*unit, *count),
        }
    }
}

/// The newest row of a table: its timestamp column, and its secondary index
/// column where the query selected one.
#[derive(Debug, Clone, PartialEq, Eq)]
pub struct LastRecord {
    pub timestamp_or_index: StoredValue,
    pub secondary_index: Option<StoredValue>,
}

/// A `LastRecord` with its values taken by their views.
pub struct LastRecordView {
    pub timestamp_or_index: StoredValueView,
    pub secondary_index: Option<StoredValueView>,
}

impl View for LastRecord {
    type V = LastRecordView;

    open spec fn view(&self) -> LastRecordView {
        LastRecordView {
            timestamp_or_index: self.timestamp_or_index@,
            secondary_index: match self.secondary_index {
                Some(v) => Some(v@),
                None => None,
            },
        }
    }
}

/// Where to resume: the primary position as text, and the secondary position
/// where a secondary index is configured.
#[derive(Debug, Clone, PartialEq, Eq)]
pub struct ResumeCursor {
    pub primary: String,
    pub secondary: Option<u64>,
}

/// A `ResumeCursor` with its text as a sequence of characters.
pub struct ResumeCursorView {
    pub primary: Seq<char>,
    pub secondary: Option<u64>,
}

impl View for ResumeCursor {
    type V = ResumeCursorView;

    open spec fn view(&self) -> ResumeCursorView {
        ResumeCursorView { primary: self.primary@, secondary: self.secondary }
    }
}

/// What becomes of the calendar text that was written for an instant: where
/// none could be written, the instant lies outside the calendar, and that is
/// an error.
pub open spec fn written_instant(written: Option<Seq<char>>) -> Result<
    Option<Seq<char>>,
    LoaderErrorView,
> {
    match written {
        Some(text) => Ok(Some(text)),
        None => Err(LoaderErrorView::Database),
    }
}

/// The calendar text of a stored instant, in the pattern
/// `YYYY-MM-DD HH:MM:SS`. A count of nanoseconds has none; a count that lies
/// outside the calendar is an error.
pub open spec fn instant_text(unit: TimeUnit, count: i64) -> Result<
    Option<Seq<char>>,
    LoaderErrorView,
> {
    match unit {
        TimeUnit::Second => written_instant(civil_text_of_seconds(count as int, INSTANT_PATTERN@)),
        TimeUnit::Millisecond => written_instant(
            civil_text_of_millis(count as int, INSTANT_PATTERN@),
        ),
        TimeUnit::Microsecond => written_instant(
            civil_text_of_micros(count as int, INSTANT_PATTERN@),
        ),
        TimeUnit::Nanosecond => Ok(None),
    }
}

/// The cursor text of a stored value, by its kind:
/// truth values and integers in decimal, dates by their day count in decimal;
/// floating, fixed-point and text values as they are; instants and times as
/// calendar text; bytes as the text they encode, and an error where they
/// encode none. A null and a count of nanoseconds have no cursor text.
pub open spec fn cursor_text(value: StoredValueView) -> Result<Option<Seq<char>>, LoaderErrorView> {
    match value {
        StoredValueView::Null => Ok(None),
        StoredValueView::Boolean(b) => Ok(Some(bool_text(b))),
        StoredValueView::Integer(i) => Ok(Some(signed_decimal(i as int))),
        StoredValueView::Floating(t) => Ok(Some(t)),
        StoredValueView::FixedPoint(t) => Ok(Some(t)),
        StoredValueView::Timestamp(unit, count) => instant_text(unit, count),
        StoredValueView::Text(t) => Ok(Some(t)),
        StoredValueView::Bytes(b) => if valid_utf8(b) {
            Ok(Some(decode_utf8(b)))
        } else {
            Err(LoaderErrorView::InvalidCursorEncoding)
        },
        StoredValueView::Date(d) => Ok(Some(signed_decimal(d as int))),
        StoredValueView::Time(unit, count) => instant_text(unit, count),
    }
}

/// The result of a conversion with its text and its error taken by their
/// views.
pub open spec fn text_outcome_view(r: Result<Option<String>, LoaderError>) -> Result<
    Option<Seq<char>>,
    LoaderErrorView,
> {
    match r {
        Ok(Some(t)) => Ok(Some(t@)),
        Ok(None) => Ok(None),
        Err(e) => Err(e@),
    }
}

/// What becomes of the calendar text that was written for an instant.
pub fn cursor_of_written(written: Option<String>) -> (r: Result<Option<String>, LoaderError>)
    ensures
        text_outcome_view(r) == written_instant(text_view(written)),
{
    match written {
        Some(text) => Ok(Some(text)),
        None => Err(LoaderError::Database),
    }
}

/// The calendar text of a stored instant.
pub fn instant_cursor(unit: TimeUnit, count: i64) -> (r: Result<Option<String>, LoaderError>)
    ensures
        text_outcome_view(r) == instant_text(unit, count),
{
    let written = match unit {
        TimeUnit::Second => format_seconds(count, INSTANT_PATTERN),
        TimeUnit::Millisecond => format_millis(count, INSTANT_PATTERN),
        TimeUnit::Microsecond => format_micros(count, INSTANT_PATTERN),
        TimeUnit::Nanosecond => {
            return Ok(None);
        },
    };
    cursor_of_written(written)
}

/// The cursor text of a stored value.
pub fn cursor_of(value: &StoredValue) -> (r: Result<Option<String>, LoaderError>)
    ensures
        text_outcome_view(r) == cursor_text(value@),
{
    match value {
        StoredValue::Null => Ok(None),
        StoredValue::Boolean(b) => Ok(Some(text_of_bool(*b))),
        StoredValue::Integer(i) => Ok(Some(text_of_i128(*i))),
        StoredValue::Floating(t) => Ok(Some(t.clone())),
        StoredValue::FixedPoint(t) => Ok(Some(t.clone())),
        StoredValue::Timestamp(unit, count) => instant_cursor(*unit, *count),
        StoredValue::Text(t) => Ok(Some(t.clone())),
        StoredValue::Bytes(b) => match text_of_utf8(b.as_slice()) {
            Some(text) => {
                proof {
                    encode_utf8_decode_utf8(text@);
                }
                Ok(Some(String::from_str(text)))
            },
            None => Err(LoaderError::InvalidCursorEncoding),
        },
        StoredValue::Date(d) => Ok(Some(text_of_i128(*d as i128))),
        StoredValue::Time(unit, count) => instant_cursor(*unit, *count),
    }
}

/// The unsigned number that a secondary index column holds: the value of an
/// integer that is not negative and fits in 64 bits. Anything else is a
/// failure of the store.
pub open spec fn unsigned_of(value: StoredValueView) -> Result<u64, LoaderErrorView> {
    match value {
        StoredValueView::Integer(i) => if 0 <= i && i <= u64::MAX {
            Ok(i as u64)
        } else {
            Err(LoaderErrorView::StoreError)
        },
        _ => Err(LoaderErrorView::StoreError),
    }
}

/// The secondary position of a row: none where no secondary index is
/// configured; else the unsigned number in the row's secondary column, whose
/// absence is a failure of the store.
pub open spec fn secondary_position(record: LastRecordView, configured: bool) -> Result<
    Option<u64>,
    LoaderErrorView,
> {
    if !configured {
        Ok(None)
    } else {
        match record.secondary_index {
            Some(v) => match unsigned_of(v) {
                Ok(n) => Ok(Some(n)),
                Err(e) => Err(e),
            },
            None => Err(LoaderErrorView::StoreError),
        }
    }
}

/// The resume cursor of a table whose newest row is `record`. The secondary
/// position is read first; a row whose timestamp column has no cursor text
/// gives no cursor.
pub open spec fn resume_cursor_of(record: LastRecordView, configured: bool) -> Result<
    Option<ResumeCursorView>,
    LoaderErrorView,
> {
    match secondary_position(record, configured) {
        Err(e) => Err(e),
        Ok(secondary) => match cursor_text(record.timestamp_or_index) {
            Err(e) => Err(e),
            Ok(None) => Ok(None),
            Ok(Some(primary)) => Ok(Some(ResumeCursorView { primary, secondary })),
        },
    }
}

/// The result of a resolution with its cursor and its error taken by their
/// views.
pub open spec fn cursor_outcome_view(r: Result<Option<ResumeCursor>, LoaderError>) -> Result<
    Option<ResumeCursorView>,
    LoaderErrorView,
> {
    match r {
        Ok(Some(c)) => Ok(Some(c@)),
        Ok(None) => Ok(None),
        Err(e) => Err(e@),
    }
}

/// Resolves the resume cursor from the newest row of a table.
/// `secondary_configured` says whether the data source names a secondary
/// index.
pub fn resume_cursor(record: &LastRecord, secondary_configured: bool) -> (r: Result<
    Option<ResumeCursor>,
    LoaderError,
>)
    ensures
        cursor_outcome_view(r) == resume_cursor_of(record@, secondary_configured),
{
    let secondary = if !secondary_configured {
        None
    } else {
        match &record.secondary_index {
            Some(StoredValue::Integer(i)) => {
                if 0 <= *i && *i <= u64::MAX as i128 {
                    Some(*i as u64)
                } else {
                    return Err(LoaderError::StoreError);
                }
            },
            _ => {
                return Err(LoaderError::StoreError);
            },
        }
    };
    match cursor_of(&record.timestamp_or_index) {
        Err(e) => Err(e),
        Ok(None) => Ok(None),
        Ok(Some(primary)) => Ok(Some(ResumeCursor { primary, secondary })),
    }
}

/// The value that `text` writes when it is read as a value of the kind of
/// `kind`: a truth value from its word, an integer or a day count from its
/// decimal numeral, and a floating, fixed-point or text value from the text
/// itself.
pub open spec fn reread(kind: StoredValueView, text: Seq<char>) -> Option<StoredValueView> {
    match kind {
        StoredValueView::Boolean(_) => if text == bool_text(true) {
            Some(StoredValueView::Boolean(true))
        } else if text == bool_text(false) {
            Some(StoredValueView::Boolean(false))
        } else {
            None
        },
        StoredValueView::Integer(_) => match signed_value(text) {
            Some(i) => if i128::MIN <= i && i <= i128::MAX {
                Some(StoredValueView::Integer(i as i128))
            } else {
                None
            },
            None => None,
        },
        StoredValueView::Date(_) => match signed_value(text) {
            Some(d) => if i32::MIN <= d && d <= i32::MAX {
                Some(StoredValueView::Date(d as i32))
            } else {
                None
            },
            None => None,
        },
        StoredValueView::Floating(_) => Some(StoredValueView::Floating(text)),
        StoredValueView::FixedPoint(_) => Some(StoredValueView::FixedPoint(text)),
        StoredValueView::Text(_) => Some(StoredValueView::Text(text)),
        _ => None,
    }
}

/// A truth value, an integer, a day count, and a floating, fixed-point or
/// text value each have a cursor text, and reading that text as a value of the
/// same kind gives the value back.
pub proof fn lemma_cursor_round_trip(value: StoredValueView)
    requires
        value is Boolean || value is Integer || value is Date || value is Floating
            || value is FixedPoint || value is Text,
    ensures
        cursor_text(value) matches Ok(Some(text)) && reread(value, text) == Some(value),
{
    match value {
        StoredValueView::Boolean(_) => {
            reveal_strlit("true");
            reveal_strlit("false");
        },
        StoredValueView::Integer(i) => {
            crate::text::lemma_signed_decimal_round_trip(i as int);
        },
        StoredValueView::Date(d) => {
            crate::text::lemma_signed_decimal_round_trip(d as int);
        },
        _ => {},
    }
}

/// A count of nanoseconds gives no cursor text and no error.
pub proof fn lemma_nanoseconds_have_no_cursor(count: i64)
    ensures
        cursor_text(StoredValueView::Timestamp(TimeUnit::Nanosecond, count)) == Ok::<
            Option<Seq<char>>,
            LoaderErrorView,
        >(None),
        cursor_text(StoredValueView::Time(TimeUnit::Nanosecond, count)) == Ok::<
            Option<Seq<char>>,
            LoaderErrorView,
        >(None),
{
}

/// Bytes that are well-formed UTF-8 give the text they encode, and any other
/// bytes give `InvalidCursorEncoding`.
pub proof fn lemma_bytes_cursor(bytes: Seq<u8>)
    ensures
        valid_utf8(bytes) ==> cursor_text(StoredValueView::Bytes(bytes)) == Ok::<
            Option<Seq<char>>,
            LoaderErrorView,
        >(Some(decode_utf8(bytes))),
        !valid_utf8(bytes) ==> cursor_text(StoredValueView::Bytes(bytes)) == Err::<
            Option<Seq<char>>,
            LoaderErrorView,
        >(LoaderErrorView::InvalidCursorEncoding),
{
}

} // verus!

//! The failures that the engine reports.

use crate::deep_lynx::{APIError, APIErrorView};
use vstd::prelude::*;

verus! {

/// Why a synchronisation pass, or a push, could not go on.
#[derive(Debug, Clone, PartialEq, Eq)]
pub enum LoaderError {
    /// A setting that the operation needs is absent from the configuration.
    UnwrapOption,
    /// The store holds an instant that cannot be written as a calendar date.
    Database,
    /// The configuration names no data source.
    NoDataSources,
    /// The remote service's file identifier is not an unsigned number.
    NumberParsing,
    /// The client refused the call, or the remote service did.
    API(APIError),
    /// The local store failed, or handed back a value of the wrong kind.
    StoreError,
    /// The cursor column holds bytes that are not UTF-8 text.
    InvalidCursorEncoding,
    /// The temporary file could not be written or removed.
    FilesystemError,
    /// The driver answered a request that the engine had not made.
    UnexpectedEvent,
}

/// A `LoaderError` with its text as sequences of characters.
pub enum LoaderErrorView {
    UnwrapOption,
    Database,
    NoDataSources,
    NumberParsing,
    API(APIErrorView),
    StoreError,
    InvalidCursorEncoding,
    FilesystemError,
    UnexpectedEvent,
}

impl View for LoaderError {
    type V = LoaderErrorView;

    open spec fn view(&self) -> LoaderErrorView {
        match self {
            LoaderError::UnwrapOption => LoaderErrorView::UnwrapOption,
            LoaderError::Database => LoaderErrorView::Database,
            LoaderError::NoDataSources => LoaderErrorView::NoDataSources,
            LoaderError::NumberParsing => LoaderErrorView::NumberParsing,
            LoaderError::API(e) => LoaderErrorView::API(e@),
            LoaderError::StoreError => LoaderErrorView::StoreError,
            LoaderError::InvalidCursorEncoding => LoaderErrorView::InvalidCursorEncoding,
            LoaderError::FilesystemError => LoaderErrorView::FilesystemError,
            LoaderError::UnexpectedEvent => LoaderErrorView::UnexpectedEvent,
        }
    }
}

impl LoaderError {
    /// A sentence that names the failure.
    pub fn message(&self) -> (r: String)
        ensures
            r@ == loader_error_text(self@),
    {
        match self {
            LoaderError::UnwrapOption => String::from_str("unwrap option error"),
            LoaderError::Database => String::from_str("database error"),
            LoaderError::NoDataSources => String::from_str("no data sources provided"),
            LoaderError::NumberParsing => String::from_str("number parsing error"),
            LoaderError::API(e) => {
                let mut text = String::from_str("deeplynx api error: ");
                let inner = e.message();
                text.append(inner.as_str());
                text
            },
            LoaderError::StoreError => String::from_str("local store error"),
            LoaderError::InvalidCursorEncoding => String::from_str(
                "blob conversion error, THIS SHOULD NEVER HAPPEN",
            ),
            LoaderError::FilesystemError => String::from_str("io error"),
            LoaderError::UnexpectedEvent => String::from_str("unexpected event"),
        }
    }
}

/// The sentence that names a failure.
pub open spec fn loader_error_text(e: LoaderErrorView) -> Seq<char> {
    match e {
        LoaderErrorView::UnwrapOption => "unwrap option error"@,
        LoaderErrorView::Database => "database error"@,
        LoaderErrorView::NoDataSources => "no data sources provided"@,
        LoaderErrorView::NumberParsing => "number parsing error"@,
        LoaderErrorView::API(inner) => "deeplynx api error: "@ + crate::deep_lynx::api_error_text(
            inner,
        ),
        LoaderErrorView::StoreError => "local store error"@,
        LoaderErrorView::InvalidCursorEncoding => "blob conversion error, THIS SHOULD NEVER HAPPEN"@,
        LoaderErrorView::FilesystemError => "io error"@,
        LoaderErrorView::UnexpectedEvent => "unexpected event"@,
    }
}

} // verus!

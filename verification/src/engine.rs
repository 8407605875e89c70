//! The synchronisation of one data source, as a machine that is told what
//! happened and says what to do next.
//!
//! A table is loaded in one of two modes. A full load drops the table, asks
//! for an extract from the configured start, and makes the table anew from
//! it; a table made from no rows is dropped again. A continuation asks for
//! what follows the table's newest row and appends it; retention cleanup
//! follows a continuation and never a full load.

use crate::bindings::fresh_identifier;
use crate::config::{Configuration, DataSourceConfiguration, DataSourceView};
use crate::cursor::{resume_cursor, resume_cursor_of, LastRecord, ResumeCursorView};
use crate::deep_lynx::{
    DownloadQueryView, InitiateDataSourceDownloadQuery, InitiateDataSourceDownloadResponse,
};
use crate::errors::{LoaderError, LoaderErrorView};
use crate::statements::{
    append_statement, append_text, create_statement, create_text, drop_statement, drop_text,
    last_row_statement, last_row_text, retention_statement, retention_text, TABLE_LOOKUP,
};
use crate::text::{copy_text, parse_u64, parsed_u64};
use vstd::prelude::*;
use vstd::string::*;

verus! {

/// How a table is brought up to date.
#[derive(Debug, Clone, Copy, PartialEq, Eq, Structural)]
pub enum Mode {
    /// The table is made anew from a complete extract.
    FullLoad,
    /// The rows that follow the table's newest row are appended.
    Continuation,
}

/// Where the synchronisation of a data source stands: which answer it waits
/// for, or how it ended.
#[derive(Debug, Clone, Copy, PartialEq, Eq, Structural)]
pub enum Stage {
    /// The catalog was asked whether the table is there.
    CheckingTable,
    /// The table was asked for its newest row.
    ReadingLastRow,
    /// The table is being dropped ahead of a full load.
    DroppingBeforeLoad,
    /// The service was asked to prepare an extract.
    RequestingDownload(Mode),
    /// The extract is being streamed into the temporary file.
    StoringFile(Mode),
    /// The store is loading the temporary file.
    Loading(Mode),
    /// The table that a full load made from no rows is being dropped.
    DroppingEmpty,
    /// The temporary file is being removed.
    RemovingFile(Mode),
    /// Rows beyond the retention window are being deleted.
    Cleaning,
    /// The data source is up to date.
    Finished,
    /// The synchronisation was given up.
    Aborted,
}

/// What the driver reports back after it did what it was told.
#[derive(Debug, Clone, PartialEq, Eq)]
pub enum SyncEvent {
    /// The catalog lookup found the table, or did not.
    TableChecked(bool),
    /// The newest row of the table, if the table holds any row.
    LastRow(Option<LastRecord>),
    /// A statement ran and touched this many rows.
    Executed(usize),
    /// The service prepared an extract and handed out its descriptor.
    DownloadReady(InitiateDataSourceDownloadResponse),
    /// The extract is in the temporary file.
    FileStored,
    /// The temporary file is gone.
    FileRemoved,
    /// What was to be done failed.
    Failed(LoaderError),
}

/// What the driver is told to do next.
#[derive(Debug, Clone, PartialEq, Eq)]
pub enum SyncAction {
    /// Run the catalog lookup `statement` with `table` as its parameter, and
    /// report whether it finds a row.
    FindTable { statement: String, table: String },
    /// Run `statement` and report its one row, if there is one; the second
    /// column is the secondary index when `with_secondary` is set.
    ReadLastRow { statement: String, with_secondary: bool },
    /// Run `statement`, which drops the table.
    DropTable { statement: String },
    /// Ask the service to prepare the extract that `query` covers.
    InitiateDownload { container_id: u64, data_source_id: u64, query: InitiateDataSourceDownloadQuery },
    /// Stream the file `file_id` into a new file at `path`.
    StoreFile { container_id: u64, file_id: u64, delete_after: bool, path: String },
    /// Run `statement`, which makes the table from the temporary file, and
    /// report how many rows it holds.
    CreateTable { statement: String },
    /// Run `statement`, which appends the temporary file to the table, and
    /// report how many rows were added.
    AppendRows { statement: String },
    /// Remove the temporary file at `path`.
    RemoveFile { path: String },
    /// Run `statement`, which deletes the rows beyond the retention window.
    DeleteExpired { statement: String },
    /// Nothing is left to do.
    Finish,
    /// Give up, for this reason.
    Abort(LoaderError),
}

/// A `SyncAction` with its text as sequences of characters.
pub enum SyncActionView {
    FindTable { statement: Seq<char>, table: Seq<char> },
    ReadLastRow { statement: Seq<char>, with_secondary: bool },
    DropTable { statement: Seq<char> },
    InitiateDownload { container_id: u64, data_source_id: u64, query: DownloadQueryView },
    StoreFile { container_id: u64, file_id: u64, delete_after: bool, path: Seq<char> },
    CreateTable { statement: Seq<char> },
    AppendRows { statement: Seq<char> },
    RemoveFile { path: Seq<char> },
    DeleteExpired { statement: Seq<char> },
    Finish,
    Abort(LoaderErrorView),
}

impl View for SyncAction {
    type V = SyncActionView;

    open spec fn view(&self) -> SyncActionView {
        match self {
            SyncAction::FindTable { statement, table } => SyncActionView::FindTable {
                statement: statement@,
                table: table@,
            },
            SyncAction::ReadLastRow { statement, with_secondary } => SyncActionView::ReadLastRow {
                statement: statement@,
                with_secondary: *with_secondary,
            },
            SyncAction::DropTable { statement } => SyncActionView::DropTable {
                statement: statement@,
            },
            SyncAction::InitiateDownload {
                container_id,
                data_source_id,
                query,
            } => SyncActionView::InitiateDownload {
                container_id: *container_id,
                data_source_id: *data_source_id,
                query: query@,
            },
            SyncAction::StoreFile {
                container_id,
                file_id,
                delete_after,
                path,
            } => SyncActionView::StoreFile {
                container_id: *container_id,
                file_id: *file_id,
                delete_after: *delete_after,
                path: path@,
            },
            SyncAction::CreateTable { statement } => SyncActionView::CreateTable {
                statement: statement@,
            },
            SyncAction::AppendRows { statement } => SyncActionView::AppendRows {
                statement: statement@,
            },
            SyncAction::RemoveFile { path } => SyncActionView::RemoveFile { path: path@ },
            SyncAction::DeleteExpired { statement } => SyncActionView::DeleteExpired {
                statement: statement@,
            },
            SyncAction::Finish => SyncActionView::Finish,
            SyncAction::Abort(e) => SyncActionView::Abort(e@),
        }
    }
}

/// The synchronisation of one data source in progress.
#[derive(Debug, Clone, PartialEq, Eq)]
pub struct SourceSync {
    source: DataSourceConfiguration,
    retention_days: u32,
    stage: Stage,
    staging: String,
}

/// A `SourceSync` with its text as sequences of characters.
pub struct SourceSyncView {
    /// The data source that is synchronised.
    pub source: DataSourceView,
    /// The retention window, in days.
    pub retention_days: u32,
    /// Where the synchronisation stands.
    pub stage: Stage,
    /// The name of the temporary file; empty until one is chosen.
    pub staging: Seq<char>,
}

impl View for SourceSync {
    type V = SourceSyncView;

    closed spec fn view(&self) -> SourceSyncView {
        SourceSyncView {
            source: self.source@,
            retention_days: self.retention_days,
            stage: self.stage,
            staging: self.staging@,
        }
    }
}

/// The name of the temporary file that goes with a fresh identifier.
pub open spec fn staging_name(identifier: Seq<char>) -> Seq<char> {
    identifier + ".csv"@
}

/// What a full load asks for: everything from the configured initial
/// timestamp, and from the configured initial index value or else from zero.
pub open spec fn full_load_query(source: DataSourceView) -> DownloadQueryView {
    DownloadQueryView {
        start_time: source.initial_timestamp,
        end_time: None,
        secondary_index_name: source.secondary_index,
        secondary_index_start_value: Some(
            match source.initial_index_start {
                Some(start) => start,
                None => 0,
            },
        ),
    }
}

/// What a continuation asks for: everything from the resume cursor, and from
/// its secondary position or else from zero.
pub open spec fn continuation_query(
    source: DataSourceView,
    cursor: ResumeCursorView,
) -> DownloadQueryView {
    DownloadQueryView {
        start_time: Some(cursor.primary),
        end_time: None,
        secondary_index_name: source.secondary_index,
        secondary_index_start_value: Some(
            match cursor.secondary {
                Some(position) => position,
                None => 0,
            },
        ),
    }
}

/// The synchronisation of `source` before anything is known of its table.
pub open spec fn initial_state(source: DataSourceView, retention_days: u32) -> SourceSyncView {
    SourceSyncView { source, retention_days, stage: Stage::CheckingTable, staging: seq![] }
}

/// The first thing to do for a data source: look its table up in the catalog.
pub open spec fn find_table(source: DataSourceView) -> SyncActionView {
    SyncActionView::FindTable { statement: TABLE_LOOKUP@, table: source.table_name }
}

/// The entry into the continuation path: ask the table for its newest row.
pub open spec fn enter_continuation(state: SourceSyncView) -> (SourceSyncView, SyncActionView) {
    (
        SourceSyncView { stage: Stage::ReadingLastRow, ..state },
        SyncActionView::ReadLastRow {
            statement: last_row_text(
                state.source.table_name,
                state.source.timestamp_column_name,
                state.source.secondary_index,
            ),
            with_secondary: state.source.secondary_index is Some,
        },
    )
}

/// The entry into a full load: drop the table, whether it is there or not.
pub open spec fn enter_full_load(state: SourceSyncView) -> (SourceSyncView, SyncActionView) {
    (
        SourceSyncView { stage: Stage::DroppingBeforeLoad, ..state },
        SyncActionView::DropTable { statement: drop_text(state.source.table_name) },
    )
}

/// The end of a synchronisation that is given up.
pub open spec fn give_up(state: SourceSyncView, reason: LoaderErrorView) -> (
    SourceSyncView,
    SyncActionView,
) {
    (SourceSyncView { stage: Stage::Aborted, ..state }, SyncActionView::Abort(reason))
}

/// The request for an extract, and the wait for its descriptor.
pub open spec fn request_download(state: SourceSyncView, mode: Mode, query: DownloadQueryView) -> (
    SourceSyncView,
    SyncActionView,
) {
    (
        SourceSyncView { stage: Stage::RequestingDownload(mode), ..state },
        SyncActionView::InitiateDownload {
            container_id: state.source.container_id,
            data_source_id: state.source.data_source_id,
            query,
        },
    )
}

/// The removal of the temporary file.
pub open spec fn remove_file(state: SourceSyncView, mode: Mode) -> (SourceSyncView, SyncActionView) {
    (
        SourceSyncView { stage: Stage::RemovingFile(mode), ..state },
        SyncActionView::RemoveFile { path: state.staging },
    )
}

/// What the machine does when it is told `event` in `state`: the state it
/// moves to and what it asks for next. `fresh` is the identifier from which
/// the temporary file is named when one is needed.
///
/// A failure that is reported while something is awaited ends the
/// synchronisation with that failure. An event that does not answer what is
/// awaited ends it with `UnexpectedEvent`.
pub open spec fn step(state: SourceSyncView, event: SyncEvent, fresh: Seq<char>) -> (
    SourceSyncView,
    SyncActionView,
) {
    let source = state.source;
    match (state.stage, event) {
        (Stage::Finished, _) => give_up(state, LoaderErrorView::UnexpectedEvent),
        (Stage::Aborted, _) => give_up(state, LoaderErrorView::UnexpectedEvent),
        (_, SyncEvent::Failed(reason)) => give_up(state, reason@),
        (Stage::CheckingTable, SyncEvent::TableChecked(true)) => enter_continuation(state),
        (Stage::CheckingTable, SyncEvent::TableChecked(false)) => enter_full_load(state),
        (Stage::ReadingLastRow, SyncEvent::LastRow(None)) => enter_full_load(state),
        (Stage::ReadingLastRow, SyncEvent::LastRow(Some(record))) => match resume_cursor_of(
            record@,
            source.secondary_index is Some,
        ) {
            Err(reason) => give_up(state, reason),
            Ok(None) => enter_full_load(state),
            Ok(Some(cursor)) => request_download(
                state,
                Mode::Continuation,
                continuation_query(source, cursor),
            ),
        },
        (Stage::DroppingBeforeLoad, SyncEvent::Executed(_)) => request_download(
            state,
            Mode::FullLoad,
            full_load_query(source),
        ),
        (Stage::RequestingDownload(mode), SyncEvent::DownloadReady(handle)) => match parsed_u64(
            handle.id@,
        ) {
            Some(file_id) => (
                SourceSyncView {
                    stage: Stage::StoringFile(mode),
                    staging: staging_name(fresh),
                    ..state
                },
                SyncActionView::StoreFile {
                    container_id: source.container_id,
                    file_id,
                    delete_after: true,
                    path: staging_name(fresh),
                },
            ),
            None => give_up(state, LoaderErrorView::NumberParsing),
        },
        (Stage::StoringFile(Mode::FullLoad), SyncEvent::FileStored) => (
            SourceSyncView { stage: Stage::Loading(Mode::FullLoad), ..state },
            SyncActionView::CreateTable {
                statement: create_text(source.table_name, state.staging),
            },
        ),
        (Stage::StoringFile(Mode::Continuation), SyncEvent::FileStored) => (
            SourceSyncView { stage: Stage::Loading(Mode::Continuation), ..state },
            SyncActionView::AppendRows {
                statement: append_text(source.table_name, state.staging),
            },
        ),
        (Stage::Loading(Mode::FullLoad), SyncEvent::Executed(rows)) => if rows == 0 {
            (
                SourceSyncView { stage: Stage::DroppingEmpty, ..state },
                SyncActionView::DropTable { statement: drop_text(source.table_name) },
            )
        } else {
            remove_file(state, Mode::FullLoad)
        },
        (Stage::Loading(Mode::Continuation), SyncEvent::Executed(_)) => remove_file(
            state,
            Mode::Continuation,
        ),
        (Stage::DroppingEmpty, SyncEvent::Executed(_)) => remove_file(state, Mode::FullLoad),
        (Stage::RemovingFile(Mode::FullLoad), SyncEvent::FileRemoved) => (
            SourceSyncView { stage: Stage::Finished, ..state },
            SyncActionView::Finish,
        ),
        (Stage::RemovingFile(Mode::Continuation), SyncEvent::FileRemoved) => (
            SourceSyncView { stage: Stage::Cleaning, ..state },
            SyncActionView::DeleteExpired {
                statement: retention_text(
                    source.table_name,
                    source.timestamp_column_name,
                    state.retention_days,
                ),
            },
        ),
        (Stage::Cleaning, SyncEvent::Executed(_)) => (
            SourceSyncView { stage: Stage::Finished, ..state },
            SyncActionView::Finish,
        ),
        _ => give_up(state, LoaderErrorView::UnexpectedEvent),
    }
}

impl SourceSync {
    /// The synchronisation of `data_source` at `stage`, with no temporary file
    /// chosen.
    fn at(data_source: &DataSourceConfiguration, retention_days: u32, stage: Stage) -> (r:
        SourceSync)
        ensures
            r@ == (SourceSyncView { stage, ..initial_state(data_source@, retention_days) }),
    {
        SourceSync {
            source: data_source.duplicate(),
            retention_days,
            stage,
            staging: String::new(),
        }
    }

    /// Starts the synchronisation of a data source of which nothing is known
    /// yet, with rows kept for `retention_days` days: the first thing to do is
    /// to look its table up in the catalog.
    pub fn start(data_source: &DataSourceConfiguration, retention_days: u32) -> (r: (
        SourceSync,
        SyncAction,
    ))
        ensures
            r.0@ == initial_state(data_source@, retention_days),
            r.1@ == find_table(data_source@),
    {
        let machine = SourceSync::at(data_source, retention_days, Stage::CheckingTable);
        let action = SyncAction::FindTable {
            statement: String::from_str(TABLE_LOOKUP),
            table: data_source.table_name.clone(),
        };
        (machine, action)
    }

    /// Starts the synchronisation of a data source under `config`.
    pub fn begin(config: &Configuration, data_source: &DataSourceConfiguration) -> (r: (
        SourceSync,
        SyncAction,
    ))
        ensures
            r.0@ == initial_state(data_source@, config.data_retention_days),
            r.1@ == find_table(data_source@),
    {
        SourceSync::start(data_source, config.data_retention_days)
    }

    /// Where the synchronisation stands.
    pub fn stage(&self) -> (r: Stage)
        ensures
            r == self@.stage,
    {
        self.stage
    }

    /// Whether the synchronisation has ended, well or not.
    pub fn is_over(&self) -> (r: bool)
        ensures
            r == (self@.stage is Finished || self@.stage is Aborted),
    {
        match self.stage {
            Stage::Finished => true,
            Stage::Aborted => true,
            _ => false,
        }
    }

    fn give_up(&mut self, reason: LoaderError) -> (action: SyncAction)
        ensures
            (final(self)@, action@) == give_up(old(self)@, reason@),
    {
        self.stage = Stage::Aborted;
        SyncAction::Abort(reason)
    }

    fn enter_continuation(&mut self) -> (action: SyncAction)
        ensures
            (final(self)@, action@) == enter_continuation(old(self)@),
    {
        self.stage = Stage::ReadingLastRow;
        SyncAction::ReadLastRow {
            statement: last_row_statement(&self.source),
            with_secondary: self.source.secondary_index.is_some(),
        }
    }

    fn enter_full_load(&mut self) -> (action: SyncAction)
        ensures
            (final(self)@, action@) == enter_full_load(old(self)@),
    {
        self.stage = Stage::DroppingBeforeLoad;
        SyncAction::DropTable { statement: drop_statement(self.source.table_name.as_str()) }
    }

    fn request_download(&mut self, mode: Mode, query: InitiateDataSourceDownloadQuery) -> (action:
        SyncAction)
        ensures
            (final(self)@, action@) == request_download(old(self)@, mode, query@),
    {
        self.stage = Stage::RequestingDownload(mode);
        SyncAction::InitiateDownload {
            container_id: self.source.container_id,
            data_source_id: self.source.data_source_id,
            query,
        }
    }

    fn remove_file(&mut self, mode: Mode) -> (action: SyncAction)
        ensures
            (final(self)@, action@) == remove_file(old(self)@, mode),
    {
        self.stage = Stage::RemovingFile(mode);
        SyncAction::RemoveFile { path: self.staging.clone() }
    }

    /// Tells the machine what happened and learns what to do next. `fresh` is
    /// the identifier from which the temporary file is named, should this
    /// step choose one.
    pub fn advance_with(&mut self, event: SyncEvent, fresh: String) -> (action: SyncAction)
        ensures
            (final(self)@, action@) == step(old(self)@, event, fresh@),
    {
        let stage = self.stage;
        match stage {
            Stage::Finished => {
                return self.give_up(LoaderError::UnexpectedEvent);
            },
            Stage::Aborted => {
                return self.give_up(LoaderError::UnexpectedEvent);
            },
            _ => {},
        }
        match event {
            SyncEvent::Failed(reason) => self.give_up(reason),
            SyncEvent::TableChecked(found) => match stage {
                Stage::CheckingTable => if found {
                    self.enter_continuation()
                } else {
                    self.enter_full_load()
                },
                _ => self.give_up(LoaderError::UnexpectedEvent),
            },
            SyncEvent::LastRow(row) => match stage {
                Stage::ReadingLastRow => match row {
                    None => self.enter_full_load(),
                    Some(record) => match resume_cursor(
                        &record,
                        self.source.secondary_index.is_some(),
                    ) {
                        Err(reason) => self.give_up(reason),
                        Ok(None) => self.enter_full_load(),
                        Ok(Some(cursor)) => {
                            let query = InitiateDataSourceDownloadQuery {
                                start_time: Some(cursor.primary),
                                end_time: None,
                                secondary_index_name: copy_text(&self.source.secondary_index),
                                secondary_index_start_value: Some(
                                    match cursor.secondary {
                                        Some(position) => position,
                                        None => 0,
                                    },
                                ),
                            };
                            self.request_download(Mode::Continuation, query)
                        },
                    },
                },
                _ => self.give_up(LoaderError::UnexpectedEvent),
            },
            SyncEvent::Executed(rows) => match stage {
                Stage::DroppingBeforeLoad => {
                    let query = InitiateDataSourceDownloadQuery {
                        start_time: copy_text(&self.source.initial_timestamp),
                        end_time: None,
                        secondary_index_name: copy_text(&self.source.secondary_index),
                        secondary_index_start_value: Some(
                            match self.source.initial_index_start {
                                Some(start) => start,
                                None => 0,
                            },
                        ),
                    };
                    self.request_download(Mode::FullLoad, query)
                },
                Stage::Loading(Mode::FullLoad) => if rows == 0 {
                    self.stage = Stage::DroppingEmpty;
                    SyncAction::DropTable {
                        statement: drop_statement(self.source.table_name.as_str()),
                    }
                } else {
                    self.remove_file(Mode::FullLoad)
                },
                Stage::Loading(Mode::Continuation) => self.remove_file(Mode::Continuation),
                Stage::DroppingEmpty => self.remove_file(Mode::FullLoad),
                Stage::Cleaning => {
                    self.stage = Stage::Finished;
                    SyncAction::Finish
                },
                _ => self.give_up(LoaderError::UnexpectedEvent),
            },
            SyncEvent::DownloadReady(handle) => match stage {
                Stage::RequestingDownload(mode) => match parse_u64(handle.id.as_str()) {
                    Some(file_id) => {
                        let mut path = fresh;
                        path.append(".csv");
                        self.staging = path.clone();
                        self.stage = Stage::StoringFile(mode);
                        SyncAction::StoreFile {
                            container_id: self.source.container_id,
                            file_id,
                            delete_after: true,
                            path,
                        }
                    },
                    None => self.give_up(LoaderError::NumberParsing),
                },
                _ => self.give_up(LoaderError::UnexpectedEvent),
            },
            SyncEvent::FileStored => match stage {
                Stage::StoringFile(Mode::FullLoad) => {
                    self.stage = Stage::Loading(Mode::FullLoad);
                    SyncAction::CreateTable {
                        statement: create_statement(
                            self.source.table_name.as_str(),
                            self.staging.as_str(),
                        ),
                    }
                },
                Stage::StoringFile(Mode::Continuation) => {
                    self.stage = Stage::Loading(Mode::Continuation);
                    SyncAction::AppendRows {
                        statement: append_statement(
                            self.source.table_name.as_str(),
                            self.staging.as_str(),
                        ),
                    }
                },
                _ => self.give_up(LoaderError::UnexpectedEvent),
            },
            SyncEvent::FileRemoved => match stage {
                Stage::RemovingFile(Mode::FullLoad) => {
                    self.stage = Stage::Finished;
                    SyncAction::Finish
                },
                Stage::RemovingFile(Mode::Continuation) => {
                    self.stage = Stage::Cleaning;
                    SyncAction::DeleteExpired {
                        statement: retention_statement(
                            self.source.table_name.as_str(),
                            self.source.timestamp_column_name.as_str(),
                            self.retention_days,
                        ),
                    }
                },
                _ => self.give_up(LoaderError::UnexpectedEvent),
            },
        }
    }

    /// Tells the machine what happened and learns what to do next. The
    /// temporary file, when this step chooses one, is named from a fresh
    /// random identifier.
    pub fn advance(&mut self, event: SyncEvent) -> (action: SyncAction)
        ensures
            exists|fresh: Seq<char>|
                (final(self)@, action@) == #[trigger] step(old(self)@, event, fresh),
    {
        let fresh = match &event {
            SyncEvent::DownloadReady(_) => fresh_identifier(),
            _ => String::new(),
        };
        self.advance_with(event, fresh)
    }
}

/// Starts a continuation for a data source whose table is there: the first
/// thing to do is to ask the table for its newest row. A table without a
/// usable newest row is loaded in full instead.
pub fn continuous_fetch_and_load(
    config: &Configuration,
    data_source: &DataSourceConfiguration,
) -> (r: (SourceSync, SyncAction))
    ensures
        (r.0@, r.1@) == enter_continuation(
            initial_state(data_source@, config.data_retention_days),
        ),
{
    let mut machine = SourceSync::at(data_source, config.data_retention_days, Stage::CheckingTable);
    let action = machine.enter_continuation();
    (machine, action)
}

/// Starts a full load for a data source: the first thing to do is to drop
/// its table, so that the table that is made has the columns of the extract.
pub fn initial_fetch_and_load(config: &Configuration, data_source: &DataSourceConfiguration) -> (r:
    (SourceSync, SyncAction))
    ensures
        (r.0@, r.1@) == enter_full_load(initial_state(data_source@, config.data_retention_days)),
{
    let mut machine = SourceSync::at(data_source, config.data_retention_days, Stage::CheckingTable);
    let action = machine.enter_full_load();
    (machine, action)
}

} // verus!

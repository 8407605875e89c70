use deeplynx_loader::cursor::{LastRecord, StoredValue, TimeUnit};
use deeplynx_loader::deep_lynx::{
    APIError, InitiateDataSourceDownloadQuery, InitiateDataSourceDownloadResponse,
};
use deeplynx_loader::engine::{Mode, SourceSync, Stage, SyncAction, SyncEvent};
use deeplynx_loader::errors::LoaderError;
use deeplynx_loader::{
    continuous_fetch_and_load, initial_fetch_and_load, Configuration, DataSourceConfiguration,
};

fn source() -> DataSourceConfiguration {
    DataSourceConfiguration {
        table_name: "sensor_a".to_string(),
        container_id: 7,
        data_source_id: 9,
        timestamp_column_name: "ts".to_string(),
        secondary_index: Some("seq".to_string()),
        initial_timestamp: None,
        initial_index_start: None,
    }
}

fn config(data_sources: Vec<DataSourceConfiguration>) -> Configuration {
    Configuration {
        api_key: None,
        api_secret: None,
        deeplynx_url: "http://localhost:8090".to_string(),
        db_path: "./test.db".to_string(),
        refresh_interval: 10,
        data_retention_days: 30,
        target_data_source_id: None,
        target_container_id: None,
        debug: None,
        data_sources,
    }
}

fn handle(id: &str) -> InitiateDataSourceDownloadResponse {
    InitiateDataSourceDownloadResponse {
        id: id.to_string(),
        container_id: "7".to_string(),
        data_source_id: Some("9".to_string()),
        file_name: "extract.csv".to_string(),
        file_size: 2048,
        md5hash: "d41d8cd98f00b204e9800998ecf8427e".to_string(),
    }
}

fn newest_row() -> LastRecord {
    LastRecord {
        timestamp_or_index: StoredValue::Timestamp(TimeUnit::Second, 1_704_067_200),
        secondary_index: Some(StoredValue::Integer(42)),
    }
}

fn drop_table() -> SyncAction {
    SyncAction::DropTable { statement: "DROP TABLE IF EXISTS sensor_a".to_string() }
}

fn full_query() -> InitiateDataSourceDownloadQuery {
    InitiateDataSourceDownloadQuery {
        start_time: None,
        end_time: None,
        secondary_index_name: Some("seq".to_string()),
        secondary_index_start_value: Some(0),
    }
}

/// A store that holds at most the one table, and a remote service that has
/// the given rows to offer. It carries out what the engine asks for.
struct World {
    table: Option<Vec<u64>>,
    newest: Option<LastRecord>,
    remote_rows: Vec<u64>,
    files: Vec<String>,
    staged: Vec<u64>,
    cleaned: bool,
    queries: Vec<InitiateDataSourceDownloadQuery>,
}

fn world(table: Option<Vec<u64>>, newest: Option<LastRecord>, remote_rows: Vec<u64>) -> World {
    World {
        table,
        newest,
        remote_rows,
        files: Vec::new(),
        staged: Vec::new(),
        cleaned: false,
        queries: Vec::new(),
    }
}

fn carry_out(world: &mut World, action: SyncAction) -> Option<SyncEvent> {
    match action {
        SyncAction::FindTable { .. } => Some(SyncEvent::TableChecked(world.table.is_some())),
        SyncAction::ReadLastRow { .. } => Some(SyncEvent::LastRow(world.newest.clone())),
        SyncAction::DropTable { .. } => {
            world.table = None;
            Some(SyncEvent::Executed(0))
        }
        SyncAction::InitiateDownload { query, .. } => {
            world.queries.push(query);
            Some(SyncEvent::DownloadReady(handle("123")))
        }
        SyncAction::StoreFile { path, .. } => {
            world.files.push(path);
            world.staged = world.remote_rows.clone();
            Some(SyncEvent::FileStored)
        }
        SyncAction::CreateTable { .. } => {
            world.table = Some(world.staged.clone());
            Some(SyncEvent::Executed(world.staged.len()))
        }
        SyncAction::AppendRows { .. } => match world.table.as_mut() {
            Some(rows) => {
                rows.extend(world.staged.iter());
                Some(SyncEvent::Executed(world.staged.len()))
            }
            None => Some(SyncEvent::Failed(LoaderError::StoreError)),
        },
        SyncAction::RemoveFile { path } => {
            world.files.retain(|held| held != &path);
            Some(SyncEvent::FileRemoved)
        }
        SyncAction::DeleteExpired { .. } => {
            world.cleaned = true;
            Some(SyncEvent::Executed(0))
        }
        SyncAction::Finish => None,
        SyncAction::Abort(_) => None,
    }
}

fn drive(world: &mut World, machine: &mut SourceSync, first: SyncAction) -> SyncAction {
    let mut action = first;
    loop {
        match carry_out(world, action.clone()) {
            Some(event) => action = machine.advance(event),
            None => return action,
        }
    }
}

#[test]
fn initial_process_functionality() {
    let configuration = config(vec![source()]);
    let mut store = world(None, None, vec![1, 2, 3]);
    let (mut machine, first) = initial_fetch_and_load(&configuration, &configuration.data_sources[0]);
    assert_eq!(first, drop_table());
    let last = drive(&mut store, &mut machine, first);
    assert_eq!(last, SyncAction::Finish);
    assert!(store.table.is_some());
}

#[test]
fn continuous_process_functionality() {
    let configuration = config(vec![source()]);
    let mut store = world(None, None, vec![1, 2, 3]);
    let (mut machine, first) = initial_fetch_and_load(&configuration, &configuration.data_sources[0]);
    assert_eq!(drive(&mut store, &mut machine, first), SyncAction::Finish);
    assert!(store.table.is_some());

    store.newest = Some(newest_row());
    store.remote_rows = Vec::new();
    let (mut machine, first) =
        continuous_fetch_and_load(&configuration, &configuration.data_sources[0]);
    assert_eq!(drive(&mut store, &mut machine, first), SyncAction::Finish);
    assert_eq!(store.table, Some(vec![1, 2, 3]));
}

#[test]
fn an_absent_table_is_made_from_three_rows_and_not_cleaned() {
    let configuration = config(vec![source()]);
    let mut store = world(None, None, vec![1, 2, 3]);
    let (mut machine, first) = SourceSync::begin(&configuration, &configuration.data_sources[0]);
    assert_eq!(
        first,
        SyncAction::FindTable {
            statement: "SELECT table_name FROM duckdb_tables() WHERE table_name = ?".to_string(),
            table: "sensor_a".to_string(),
        }
    );
    assert_eq!(drive(&mut store, &mut machine, first), SyncAction::Finish);
    assert_eq!(machine.stage(), Stage::Finished);
    assert!(machine.is_over());
    assert_eq!(store.table, Some(vec![1, 2, 3]));
    assert!(store.files.is_empty());
    assert!(!store.cleaned);
    assert_eq!(store.queries, vec![full_query()]);
}

#[test]
fn a_full_load_step_by_step() {
    let configuration = config(vec![source()]);
    let (mut machine, _) = SourceSync::begin(&configuration, &configuration.data_sources[0]);
    assert_eq!(machine.stage(), Stage::CheckingTable);
    assert_eq!(machine.advance(SyncEvent::TableChecked(false)), drop_table());
    assert_eq!(machine.stage(), Stage::DroppingBeforeLoad);
    assert_eq!(
        machine.advance(SyncEvent::Executed(0)),
        SyncAction::InitiateDownload { container_id: 7, data_source_id: 9, query: full_query() }
    );
    assert_eq!(machine.stage(), Stage::RequestingDownload(Mode::FullLoad));
    assert_eq!(
        machine.advance_with(SyncEvent::DownloadReady(handle("123")), "abc".to_string()),
        SyncAction::StoreFile {
            container_id: 7,
            file_id: 123,
            delete_after: true,
            path: "abc.csv".to_string(),
        }
    );
    assert_eq!(
        machine.advance(SyncEvent::FileStored),
        SyncAction::CreateTable {
            statement: "CREATE TABLE sensor_a AS SELECT * FROM 'abc.csv'".to_string(),
        }
    );
    assert_eq!(
        machine.advance(SyncEvent::Executed(3)),
        SyncAction::RemoveFile { path: "abc.csv".to_string() }
    );
    assert_eq!(machine.stage(), Stage::RemovingFile(Mode::FullLoad));
    assert_eq!(machine.advance(SyncEvent::FileRemoved), SyncAction::Finish);
    assert_eq!(machine.stage(), Stage::Finished);
}

#[test]
fn a_full_load_starts_from_what_is_configured() {
    let mut seeded = source();
    seeded.initial_timestamp = Some("2023-06-01 00:00:00".to_string());
    seeded.initial_index_start = Some(5);
    let configuration = config(vec![seeded]);
    let (mut machine, _) = initial_fetch_and_load(&configuration, &configuration.data_sources[0]);
    assert_eq!(
        machine.advance(SyncEvent::Executed(0)),
        SyncAction::InitiateDownload {
            container_id: 7,
            data_source_id: 9,
            query: InitiateDataSourceDownloadQuery {
                start_time: Some("2023-06-01 00:00:00".to_string()),
                end_time: None,
                secondary_index_name: Some("seq".to_string()),
                secondary_index_start_value: Some(5),
            },
        }
    );
}

#[test]
fn a_full_load_without_rows_drops_the_table_again() {
    let configuration = config(vec![source()]);
    let (mut machine, _) = initial_fetch_and_load(&configuration, &configuration.data_sources[0]);
    machine.advance(SyncEvent::Executed(0));
    machine.advance_with(SyncEvent::DownloadReady(handle("5")), "f".to_string());
    machine.advance(SyncEvent::FileStored);
    assert_eq!(machine.advance(SyncEvent::Executed(0)), drop_table());
    assert_eq!(machine.stage(), Stage::DroppingEmpty);
    assert_eq!(
        machine.advance(SyncEvent::Executed(0)),
        SyncAction::RemoveFile { path: "f.csv".to_string() }
    );
    assert_eq!(machine.advance(SyncEvent::FileRemoved), SyncAction::Finish);
}

#[test]
fn two_full_loads_without_rows_leave_the_table_absent_both_times() {
    let configuration = config(vec![source()]);
    let mut store = world(None, None, Vec::new());
    for _ in 0..2 {
        let (mut machine, first) =
            SourceSync::begin(&configuration, &configuration.data_sources[0]);
        assert_eq!(drive(&mut store, &mut machine, first), SyncAction::Finish);
        assert_eq!(store.table, None);
        assert!(store.files.is_empty());
        assert!(!store.cleaned);
    }
}

#[test]
fn a_table_is_made_exactly_when_the_extract_has_rows() {
    for rows in [0usize, 1, 2, 1000] {
        let configuration = config(vec![source()]);
        let mut store = world(None, None, vec![7; rows]);
        let (mut machine, first) =
            SourceSync::begin(&configuration, &configuration.data_sources[0]);
        assert_eq!(drive(&mut store, &mut machine, first), SyncAction::Finish);
        assert_eq!(store.table.is_some(), rows >= 1);
    }
}

#[test]
fn a_continuation_resumes_after_the_newest_row() {
    let configuration = config(vec![source()]);
    let (mut machine, first) =
        continuous_fetch_and_load(&configuration, &configuration.data_sources[0]);
    assert_eq!(
        first,
        SyncAction::ReadLastRow {
            statement: "SELECT ts,seq FROM sensor_a ORDER BY ts DESC,seq DESC LIMIT 1".to_string(),
            with_secondary: true,
        }
    );
    assert_eq!(machine.stage(), Stage::ReadingLastRow);
    assert_eq!(
        machine.advance(SyncEvent::LastRow(Some(newest_row()))),
        SyncAction::InitiateDownload {
            container_id: 7,
            data_source_id: 9,
            query: InitiateDataSourceDownloadQuery {
                start_time: Some("2024-01-01 00:00:00".to_string()),
                end_time: None,
                secondary_index_name: Some("seq".to_string()),
                secondary_index_start_value: Some(42),
            },
        }
    );
    assert_eq!(machine.stage(), Stage::RequestingDownload(Mode::Continuation));
}

#[test]
fn a_continuation_request_carries_the_cursor_in_its_address() {
    let configuration = config(vec![source()]);
    let (mut machine, _) = continuous_fetch_and_load(&configuration, &configuration.data_sources[0]);
    let client = deeplynx_loader::deep_lynx::DeepLynxAPI::new(
        "http://localhost:8090".to_string(),
        None,
        None,
    )
    .unwrap();
    match machine.advance(SyncEvent::LastRow(Some(newest_row()))) {
        SyncAction::InitiateDownload { container_id, data_source_id, query } => {
            let url = client.download_request(container_id, data_source_id, &query).url;
            assert!(url.contains("startTime=2024-01-01 00:00:00&"));
            assert!(url.ends_with("&secondaryIndexStartValue=42"));
            assert_eq!(
                url,
                "http://localhost:8090/containers/7/import/datasources/9/download?startTime=2024-01-01 00:00:00&endTime=&secondaryIndexName=seq&secondaryIndexStartValue=42"
            );
        }
        other => panic!("{:?}", other),
    }
}

#[test]
fn a_continuation_without_secondary_index_starts_it_at_zero() {
    let mut plain = source();
    plain.secondary_index = None;
    let configuration = config(vec![plain]);
    let (mut machine, first) =
        continuous_fetch_and_load(&configuration, &configuration.data_sources[0]);
    assert_eq!(
        first,
        SyncAction::ReadLastRow {
            statement: "SELECT ts FROM sensor_a ORDER BY ts DESC LIMIT 1".to_string(),
            with_secondary: false,
        }
    );
    let row = LastRecord { timestamp_or_index: StoredValue::Integer(17), secondary_index: None };
    assert_eq!(
        machine.advance(SyncEvent::LastRow(Some(row))),
        SyncAction::InitiateDownload {
            container_id: 7,
            data_source_id: 9,
            query: InitiateDataSourceDownloadQuery {
                start_time: Some("17".to_string()),
                end_time: None,
                secondary_index_name: None,
                secondary_index_start_value: Some(0),
            },
        }
    );
}

#[test]
fn a_continuation_step_by_step() {
    let configuration = config(vec![source()]);
    let (mut machine, _) = SourceSync::begin(&configuration, &configuration.data_sources[0]);
    assert!(matches!(
        machine.advance(SyncEvent::TableChecked(true)),
        SyncAction::ReadLastRow { .. }
    ));
    machine.advance(SyncEvent::LastRow(Some(newest_row())));
    assert_eq!(
        machine.advance_with(SyncEvent::DownloadReady(handle("+8")), "id".to_string()),
        SyncAction::StoreFile {
            container_id: 7,
            file_id: 8,
            delete_after: true,
            path: "id.csv".to_string(),
        }
    );
    assert_eq!(
        machine.advance(SyncEvent::FileStored),
        SyncAction::AppendRows {
            statement: "COPY sensor_a FROM 'id.csv' (HEADER TRUE)".to_string(),
        }
    );
    assert_eq!(
        machine.advance(SyncEvent::Executed(12)),
        SyncAction::RemoveFile { path: "id.csv".to_string() }
    );
    assert_eq!(
        machine.advance(SyncEvent::FileRemoved),
        SyncAction::DeleteExpired {
            statement: "DELETE FROM sensor_a WHERE ts < NOW() - interval '30' days".to_string(),
        }
    );
    assert_eq!(machine.stage(), Stage::Cleaning);
    assert_eq!(machine.advance(SyncEvent::Executed(4)), SyncAction::Finish);
    assert_eq!(machine.stage(), Stage::Finished);
}

#[test]
fn a_continuation_without_new_rows_leaves_the_table_as_it_is() {
    let configuration = config(vec![source()]);
    let mut store = world(Some(vec![1, 2, 3]), Some(newest_row()), Vec::new());
    let (mut machine, first) = SourceSync::begin(&configuration, &configuration.data_sources[0]);
    assert_eq!(drive(&mut store, &mut machine, first), SyncAction::Finish);
    assert_eq!(store.table, Some(vec![1, 2, 3]));
    assert!(store.files.is_empty());
    assert!(store.cleaned);
}

#[test]
fn a_continuation_appends_the_new_rows() {
    let configuration = config(vec![source()]);
    let mut store = world(Some(vec![1, 2, 3]), Some(newest_row()), vec![4, 5]);
    let (mut machine, first) = SourceSync::begin(&configuration, &configuration.data_sources[0]);
    assert_eq!(drive(&mut store, &mut machine, first), SyncAction::Finish);
    assert_eq!(store.table, Some(vec![1, 2, 3, 4, 5]));
    assert!(store.cleaned);
}

#[test]
fn a_table_without_rows_is_loaded_in_full() {
    let configuration = config(vec![source()]);
    let mut store = world(Some(Vec::new()), None, vec![1]);
    let (mut machine, first) = SourceSync::begin(&configuration, &configuration.data_sources[0]);
    assert_eq!(drive(&mut store, &mut machine, first), SyncAction::Finish);
    assert_eq!(store.table, Some(vec![1]));
    assert!(!store.cleaned);
    assert_eq!(store.queries, vec![full_query()]);
}

#[test]
fn a_newest_row_without_usable_cursor_leads_to_a_full_load() {
    let configuration = config(vec![source()]);
    let (mut machine, _) = continuous_fetch_and_load(&configuration, &configuration.data_sources[0]);
    let nanos = LastRecord {
        timestamp_or_index: StoredValue::Timestamp(TimeUnit::Nanosecond, 5),
        secondary_index: Some(StoredValue::Integer(1)),
    };
    assert_eq!(machine.advance(SyncEvent::LastRow(Some(nanos))), drop_table());
    assert_eq!(machine.stage(), Stage::DroppingBeforeLoad);

    let (mut machine, _) = continuous_fetch_and_load(&configuration, &configuration.data_sources[0]);
    assert_eq!(machine.advance(SyncEvent::LastRow(None)), drop_table());
}

#[test]
fn a_cursor_that_cannot_be_resolved_ends_the_synchronisation() {
    let configuration = config(vec![source()]);
    let (mut machine, _) = continuous_fetch_and_load(&configuration, &configuration.data_sources[0]);
    let broken = LastRecord {
        timestamp_or_index: StoredValue::Bytes(vec![0xff]),
        secondary_index: Some(StoredValue::Integer(1)),
    };
    assert_eq!(
        machine.advance(SyncEvent::LastRow(Some(broken))),
        SyncAction::Abort(LoaderError::InvalidCursorEncoding)
    );
    assert_eq!(machine.stage(), Stage::Aborted);

    let (mut machine, _) = continuous_fetch_and_load(&configuration, &configuration.data_sources[0]);
    let unindexed =
        LastRecord { timestamp_or_index: StoredValue::Integer(1), secondary_index: None };
    assert_eq!(
        machine.advance(SyncEvent::LastRow(Some(unindexed))),
        SyncAction::Abort(LoaderError::StoreError)
    );
}

#[test]
fn a_file_identifier_that_is_no_number_ends_the_synchronisation() {
    let configuration = config(vec![source()]);
    for id in ["", "abc", "-3", "12.5", "18446744073709551616"] {
        let (mut machine, _) =
            initial_fetch_and_load(&configuration, &configuration.data_sources[0]);
        machine.advance(SyncEvent::Executed(0));
        assert_eq!(
            machine.advance(SyncEvent::DownloadReady(handle(id))),
            SyncAction::Abort(LoaderError::NumberParsing)
        );
        assert_eq!(machine.stage(), Stage::Aborted);
    }
}

#[test]
fn a_reported_failure_ends_the_synchronisation_with_that_failure() {
    let configuration = config(vec![source()]);
    let (mut machine, _) = initial_fetch_and_load(&configuration, &configuration.data_sources[0]);
    machine.advance(SyncEvent::Executed(0));
    let refused = LoaderError::API(APIError::RemoteServiceError {
        code: 404,
        message: "no such source".to_string(),
    });
    assert_eq!(machine.advance(SyncEvent::Failed(refused.clone())), SyncAction::Abort(refused));
    assert!(machine.is_over());

    let (mut machine, _) = SourceSync::begin(&configuration, &configuration.data_sources[0]);
    assert_eq!(
        machine.advance(SyncEvent::Failed(LoaderError::StoreError)),
        SyncAction::Abort(LoaderError::StoreError)
    );
}

#[test]
fn an_event_that_answers_nothing_is_unexpected() {
    let configuration = config(vec![source()]);
    let (mut machine, _) = SourceSync::begin(&configuration, &configuration.data_sources[0]);
    assert_eq!(
        machine.advance(SyncEvent::FileStored),
        SyncAction::Abort(LoaderError::UnexpectedEvent)
    );
    assert_eq!(machine.stage(), Stage::Aborted);
    assert_eq!(
        machine.advance(SyncEvent::TableChecked(true)),
        SyncAction::Abort(LoaderError::UnexpectedEvent)
    );
    assert_eq!(
        machine.advance(SyncEvent::Failed(LoaderError::StoreError)),
        SyncAction::Abort(LoaderError::UnexpectedEvent)
    );
}

#[test]
fn a_finished_synchronisation_takes_no_more_events() {
    let configuration = config(vec![source()]);
    let mut store = world(None, None, vec![1]);
    let (mut machine, first) = SourceSync::begin(&configuration, &configuration.data_sources[0]);
    assert_eq!(drive(&mut store, &mut machine, first), SyncAction::Finish);
    assert_eq!(
        machine.advance(SyncEvent::Executed(1)),
        SyncAction::Abort(LoaderError::UnexpectedEvent)
    );
}

#[test]
fn the_temporary_file_is_named_from_a_fresh_identifier() {
    let configuration = config(vec![source()]);
    let mut names = Vec::new();
    for _ in 0..2 {
        let (mut machine, _) =
            initial_fetch_and_load(&configuration, &configuration.data_sources[0]);
        machine.advance(SyncEvent::Executed(0));
        match machine.advance(SyncEvent::DownloadReady(handle("1"))) {
            SyncAction::StoreFile { path, .. } => {
                assert!(path.ends_with(".csv"));
                assert_eq!(path.len(), 40);
                match machine.advance(SyncEvent::FileStored) {
                    SyncAction::CreateTable { statement } => assert_eq!(
                        statement,
                        format!("CREATE TABLE sensor_a AS SELECT * FROM '{}'", path)
                    ),
                    other => panic!("{:?}", other),
                }
                names.push(path);
            }
            other => panic!("{:?}", other),
        }
    }
    assert_ne!(names[0], names[1]);
}

#[test]
fn failures_of_the_loader_have_a_message() {
    assert_eq!(LoaderError::Database.message(), "database error");
    assert_eq!(
        LoaderError::API(APIError::MissingFields).message(),
        "deeplynx api error: missing required fields"
    );
    assert_eq!(
        LoaderError::InvalidCursorEncoding.message(),
        "blob conversion error, THIS SHOULD NEVER HAPPEN"
    );
}

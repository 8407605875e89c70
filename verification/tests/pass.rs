use deeplynx_loader::engine::{SyncAction, SyncEvent};
use deeplynx_loader::errors::LoaderError;
use deeplynx_loader::deep_lynx::{
    APIError, ClientStep, Credential, InitiateDataSourceDownloadResponse,
};
use deeplynx_loader::{load_loop, Configuration, DataSourceConfiguration, Loader};

fn source(table: &str) -> DataSourceConfiguration {
    DataSourceConfiguration {
        table_name: table.to_string(),
        container_id: 7,
        data_source_id: 9,
        timestamp_column_name: "ts".to_string(),
        secondary_index: None,
        initial_timestamp: None,
        initial_index_start: None,
    }
}

fn config(tables: &[&str]) -> Configuration {
    Configuration {
        api_key: None,
        api_secret: None,
        deeplynx_url: "http://localhost:8090".to_string(),
        db_path: "./test.db".to_string(),
        refresh_interval: 10,
        data_retention_days: 30,
        target_data_source_id: None,
        target_container_id: Some(3),
        debug: None,
        data_sources: tables.iter().map(|t| source(t)).collect(),
    }
}

fn find(table: &str) -> SyncAction {
    SyncAction::FindTable {
        statement: "SELECT table_name FROM duckdb_tables() WHERE table_name = ?".to_string(),
        table: table.to_string(),
    }
}

fn handle() -> InitiateDataSourceDownloadResponse {
    InitiateDataSourceDownloadResponse {
        id: "1".to_string(),
        container_id: "7".to_string(),
        data_source_id: None,
        file_name: "x.csv".to_string(),
        file_size: 0,
        md5hash: String::new(),
    }
}

fn full_load_events(rows: usize) -> Vec<SyncEvent> {
    vec![
        SyncEvent::TableChecked(false),
        SyncEvent::Executed(0),
        SyncEvent::DownloadReady(handle()),
        SyncEvent::FileStored,
        SyncEvent::Executed(rows),
    ]
}

#[test]
fn a_pass_over_no_data_source_is_over_at_once() {
    let (pass, first) = load_loop(&config(&[]));
    assert_eq!(first, SyncAction::Finish);
    assert!(pass.is_over());
    assert_eq!(pass.remaining(), 0);
}

#[test]
fn a_pass_takes_up_the_data_sources_in_their_order() {
    let (mut pass, first) = load_loop(&config(&["a", "b"]));
    assert_eq!(first, find("a"));
    assert_eq!(pass.remaining(), 1);
    for event in full_load_events(2) {
        let action = pass.advance(event);
        assert!(!matches!(action, SyncAction::Finish | SyncAction::Abort(_)));
    }
    assert_eq!(pass.advance(SyncEvent::FileRemoved), find("b"));
    assert_eq!(pass.remaining(), 0);
    assert!(!pass.is_over());
    for event in full_load_events(2) {
        pass.advance(event);
    }
    assert_eq!(pass.advance(SyncEvent::FileRemoved), SyncAction::Finish);
    assert!(pass.is_over());
}

#[test]
fn a_failure_ends_the_pass_before_the_later_data_sources() {
    let (mut pass, _) = load_loop(&config(&["a", "b"]));
    assert_eq!(
        pass.advance(SyncEvent::Failed(LoaderError::StoreError)),
        SyncAction::Abort(LoaderError::StoreError)
    );
    assert!(pass.is_over());
    assert_eq!(pass.remaining(), 1);
    assert_eq!(
        pass.advance(SyncEvent::TableChecked(false)),
        SyncAction::Abort(LoaderError::UnexpectedEvent)
    );
}

#[test]
fn a_load_without_rows_does_not_end_the_pass() {
    let (mut pass, _) = load_loop(&config(&["a", "b"]));
    for event in full_load_events(0) {
        pass.advance(event);
    }
    assert!(matches!(pass.advance(SyncEvent::Executed(0)), SyncAction::RemoveFile { .. }));
    assert_eq!(pass.advance(SyncEvent::FileRemoved), find("b"));
}

#[test]
fn a_pass_that_is_over_takes_no_more_events() {
    let (mut pass, _) = load_loop(&config(&[]));
    assert_eq!(
        pass.advance(SyncEvent::FileStored),
        SyncAction::Abort(LoaderError::UnexpectedEvent)
    );
    assert_eq!(
        pass.advance_with(SyncEvent::Executed(0), "x".to_string()),
        SyncAction::Abort(LoaderError::UnexpectedEvent)
    );
}

#[test]
fn the_loader_starts_a_pass_over_its_configuration() {
    let loader = Loader::new(config(&["a", "b", "c"])).unwrap();
    let (pass, first) = loader.load_data();
    assert_eq!(first, find("a"));
    assert_eq!(pass.remaining(), 2);
}

#[test]
fn the_loader_pushes_a_file_to_the_configured_container() {
    let loader = Loader::new(config(&[])).unwrap();
    let request = loader.send_file_request("readings.csv", 11).unwrap();
    assert_eq!(
        request.url,
        "http://localhost:8090/containers/3/import/datasources/11/imports?fastLoad=true"
    );
    assert_eq!(loader.send_file("readings.csv", 11), Ok(ClientStep::Send(request.clone())));
    assert_eq!(loader.send_file_at(0, "readings.csv", 11), Ok(ClientStep::Send(request)));
}

#[test]
fn the_loader_cannot_push_without_a_container() {
    let mut settings = config(&[]);
    settings.target_container_id = None;
    let loader = Loader::new(settings).unwrap();
    assert_eq!(loader.send_file("readings.csv", 11), Err(LoaderError::UnwrapOption));
    assert_eq!(loader.send_file_request("readings.csv", 11), Err(LoaderError::UnwrapOption));
}

#[test]
fn the_loader_wraps_the_failures_of_the_client() {
    let mut loader = Loader::new(config(&[])).unwrap();
    assert_eq!(
        loader.send_file("readings", 11),
        Err(LoaderError::API(APIError::UnknownContentType))
    );
    assert_eq!(
        loader.accept_token("\"abc\""),
        Err(LoaderError::API(APIError::MissingCredential(Credential::ApiKey)))
    );
}

#[test]
fn a_secured_loader_fetches_a_token_and_then_sends_with_it() {
    let mut settings = config(&[]);
    settings.api_key = Some("key".to_string());
    settings.api_secret = Some("secret".to_string());
    let mut loader = Loader::new(settings).unwrap();
    match loader.send_file("readings.csv", 11) {
        Ok(ClientStep::FetchToken(request)) => {
            assert_eq!(request.url, "http://localhost:8090/oauth/token");
        }
        other => panic!("{:?}", other),
    }
    assert_eq!(loader.accept_token("\"abc\""), Ok(()));
    let request = loader.send_file_request("readings.csv", 11).unwrap();
    assert_eq!(request.headers.len(), 1);
    assert_eq!(request.headers[0].name, "Authorization");
    assert_eq!(request.headers[0].value, "Bearer abc");
}

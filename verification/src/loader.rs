//! The two operations that the engine offers to its host: one pass over all
//! data sources, and the push of a local file.

use crate::config::{sources_view, Configuration, DataSourceView};
use crate::deep_lynx::{
    import_request_of, import_step, outcome_view, token_request_of, unquoted, APIErrorView,
    ClientStep, ClientStepView, DeepLynxAPI, HttpRequest, HttpRequestView, SessionView,
};
use crate::engine::SyncAction;
use crate::errors::{LoaderError, LoaderErrorView};
use crate::pass::{load_loop, pass_start, SyncPass};
use crate::text::{copy_text, text_view};
use vstd::prelude::*;
use vstd::string::*;

verus! {

/// A configuration and the session with the service that it describes.
#[derive(Debug, Clone, PartialEq, Eq)]
pub struct Loader {
    config: Configuration,
    client: DeepLynxAPI,
}

/// The step of a push, or the failure of the client wrapped as a failure of
/// the loader.
pub open spec fn wrap_step(r: Result<ClientStepView, APIErrorView>) -> Result<
    ClientStepView,
    LoaderErrorView,
> {
    match r {
        Ok(step) => Ok(step),
        Err(e) => Err(LoaderErrorView::API(e)),
    }
}

/// The request of a push, or the failure of the client wrapped as a failure
/// of the loader.
pub open spec fn wrap_request(r: Result<HttpRequestView, APIErrorView>) -> Result<
    HttpRequestView,
    LoaderErrorView,
> {
    match r {
        Ok(request) => Ok(request),
        Err(e) => Err(LoaderErrorView::API(e)),
    }
}

/// What comes next for the push of the file at `path` to the data source
/// `data_source_id` of the container `target`: without a configured container
/// there is nowhere to push to.
pub open spec fn send_file_step(
    session: SessionView,
    target: Option<u64>,
    now: i64,
    path: Seq<char>,
    data_source_id: u64,
) -> Result<ClientStepView, LoaderErrorView> {
    match target {
        Some(container_id) => wrap_step(
            import_step(session, now, container_id, data_source_id, Some(path), None),
        ),
        None => Err(LoaderErrorView::UnwrapOption),
    }
}

/// The request that pushes the file at `path`.
pub open spec fn send_file_request_of(
    session: SessionView,
    target: Option<u64>,
    path: Seq<char>,
    data_source_id: u64,
) -> Result<HttpRequestView, LoaderErrorView> {
    match target {
        Some(container_id) => wrap_request(
            import_request_of(session, container_id, data_source_id, Some(path), None),
        ),
        None => Err(LoaderErrorView::UnwrapOption),
    }
}

impl Loader {
    /// The session with the service.
    pub closed spec fn session(&self) -> SessionView {
        self.client@
    }

    /// The container that files are pushed to, if one is configured.
    pub closed spec fn target_container(&self) -> Option<u64> {
        self.config.target_container_id
    }

    /// The configured data sources, in their order.
    pub closed spec fn sources(&self) -> Seq<DataSourceView> {
        sources_view(self.config.data_sources@)
    }

    /// The configured retention window, in days.
    pub closed spec fn retention_days(&self) -> u32 {
        self.config.data_retention_days
    }

    /// A loader for `config`, with a session that holds no token yet.
    pub fn new(config: Configuration) -> (r: Result<Loader, LoaderError>)
        ensures
            r matches Ok(loader) && loader.session() == (SessionView {
                server: config.deeplynx_url@,
                bearer_token: None,
                api_key: text_view(config.api_key),
                api_secret: text_view(config.api_secret),
                secured: config.api_key is Some && config.api_secret is Some,
            }) && loader.target_container() == config.target_container_id && loader.sources()
                == sources_view(config.data_sources@) && loader.retention_days()
                == config.data_retention_days,
    {
        let made = DeepLynxAPI::new(
            config.deeplynx_url.clone(),
            copy_text(&config.api_key),
            copy_text(&config.api_secret),
        );
        match made {
            Ok(client) => Ok(Loader { config, client }),
            Err(e) => Err(LoaderError::API(e)),
        }
    }

    /// Starts one pass over all configured data sources.
    pub fn load_data(&self) -> (r: (SyncPass, SyncAction))
        ensures
            (r.0@, r.1@) == pass_start(self.sources(), self.retention_days()),
    {
        load_loop(&self.config)
    }

    /// What comes next for the push of the file at `file_path` at `now`.
    pub fn send_file_at(&self, now: i64, file_path: &str, data_source_id: u64) -> (r: Result<
        ClientStep,
        LoaderError,
    >)
        ensures
            outcome_view(r) == send_file_step(
                self.session(),
                self.target_container(),
                now,
                file_path@,
                data_source_id,
            ),
    {
        let container_id = match self.config.target_container_id {
            Some(id) => id,
            None => {
                return Err(LoaderError::UnwrapOption);
            },
        };
        match self.client.import_at(
            now,
            container_id,
            data_source_id,
            Some(String::from_str(file_path)),
            None,
        ) {
            Ok(step) => Ok(step),
            Err(e) => Err(LoaderError::API(e)),
        }
    }

    /// What comes next for the push of the file at `file_path` to the data
    /// source `data_source_id` of the configured container, by this machine's
    /// clock.
    pub fn send_file(&self, file_path: &str, data_source_id: u64) -> (r: Result<
        ClientStep,
        LoaderError,
    >)
        ensures
            exists|now: i64|
                outcome_view(r) == #[trigger] send_file_step(
                    self.session(),
                    self.target_container(),
                    now,
                    file_path@,
                    data_source_id,
                ),
    {
        let now = crate::bindings::unix_time_now();
        self.send_file_at(now, file_path, data_source_id)
    }

    /// Takes the body of the token endpoint's answer as the session's token.
    pub fn accept_token(&mut self, body: &str) -> (r: Result<(), LoaderError>)
        ensures
            final(self).target_container() == old(self).target_container(),
            final(self).sources() == old(self).sources(),
            final(self).retention_days() == old(self).retention_days(),
            match token_request_of(old(self).session()) {
                Ok(_) => r is Ok && final(self).session() == (SessionView {
                    bearer_token: Some(unquoted(body@)),
                    ..old(self).session()
                }),
                Err(e) => outcome_view(r) == Err::<(), LoaderErrorView>(LoaderErrorView::API(e))
                    && final(self).session() == old(self).session(),
            },
    {
        match self.client.accept_token(body) {
            Ok(()) => Ok(()),
            Err(e) => Err(LoaderError::API(e)),
        }
    }

    /// The request that pushes the file at `file_path`, with the token that
    /// the session holds.
    pub fn send_file_request(&self, file_path: &str, data_source_id: u64) -> (r: Result<
        HttpRequest,
        LoaderError,
    >)
        ensures
            outcome_view(r) == send_file_request_of(
                self.session(),
                self.target_container(),
                file_path@,
                data_source_id,
            ),
    {
        let container_id = match self.config.target_container_id {
            Some(id) => id,
            None => {
                return Err(LoaderError::UnwrapOption);
            },
        };
        match self.client.import_request(
            container_id,
            data_source_id,
            Some(String::from_str(file_path)),
            None,
        ) {
            Ok(request) => Ok(request),
            Err(e) => Err(LoaderError::API(e)),
        }
    }
}

} // verus!

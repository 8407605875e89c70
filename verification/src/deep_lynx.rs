//! The authenticated client of the remote service, without its transport.
//!
//! The client holds the session state and decides what is sent: it builds each
//! request, says when a token has to be fetched first, and reads the service's
//! answer. Sending is left to the caller.

use crate::bindings::{guess_content_type, guessed_content_type, jwt_expiration, unix_time_now, unverified_expiration};
use crate::text::{bool_text, copy_text, decimal, text_of_bool, text_of_u64, text_view};
use vstd::prelude::*;
use vstd::string::*;

verus! {

/// One of the two credentials of a secured session.
#[derive(Debug, Clone, Copy, PartialEq, Eq, Structural)]
pub enum Credential {
    ApiKey,
    ApiSecret,
}

/// Why a call to the remote service was not made, or failed.
#[derive(Debug, Clone, PartialEq, Eq)]
pub enum APIError {
    /// A token was asked for and the named credential is absent.
    MissingCredential(Credential),
    /// The token endpoint could not be reached, or refused.
    TokenRefreshFailed,
    /// The held token cannot be parsed.
    MalformedToken,
    /// The held token says nothing of when it expires.
    MissingExpirationClaim,
    /// The service answered with an error of its own.
    RemoteServiceError { code: u32, message: String },
    /// The service's answer does not have the expected shape.
    ResponseParsingError,
    /// The file's extension tells nothing of its content type.
    UnknownContentType,
    /// A push was asked for with neither a file nor bytes.
    MissingFields,
    /// The network failed.
    TransportError,
}

/// An `APIError` with its text as sequences of characters.
pub enum APIErrorView {
    MissingCredential(Credential),
    TokenRefreshFailed,
    MalformedToken,
    MissingExpirationClaim,
    RemoteServiceError { code: u32, message: Seq<char> },
    ResponseParsingError,
    UnknownContentType,
    MissingFields,
    TransportError,
}

impl View for APIError {
    type V = APIErrorView;

    open spec fn view(&self) -> APIErrorView {
        match self {
            APIError::MissingCredential(c) => APIErrorView::MissingCredential(*c),
            APIError::TokenRefreshFailed => APIErrorView::TokenRefreshFailed,
            APIError::MalformedToken => APIErrorView::MalformedToken,
            APIError::MissingExpirationClaim => APIErrorView::MissingExpirationClaim,
            APIError::RemoteServiceError { code, message } => APIErrorView::RemoteServiceError {
                code: *code,
                message: message@,
            },
            APIError::ResponseParsingError => APIErrorView::ResponseParsingError,
            APIError::UnknownContentType => APIErrorView::UnknownContentType,
            APIError::MissingFields => APIErrorView::MissingFields,
            APIError::TransportError => APIErrorView::TransportError,
        }
    }
}

/// The sentence that names a failure of the client.
pub open spec fn api_error_text(e: APIErrorView) -> Seq<char> {
    match e {
        APIErrorView::MissingCredential(Credential::ApiKey) => "missing required fields: api_key"@,
        APIErrorView::MissingCredential(Credential::ApiSecret) => "missing required fields: api_secret"@,
        APIErrorView::TokenRefreshFailed => "token refresh failed"@,
        APIErrorView::MalformedToken => "jwt parse"@,
        APIErrorView::MissingExpirationClaim => "missing exp claim"@,
        APIErrorView::RemoteServiceError { code, message } => decimal(code as nat) + "-"@ + message,
        APIErrorView::ResponseParsingError => "unable to parse response body"@,
        APIErrorView::UnknownContentType => "unknown content type"@,
        APIErrorView::MissingFields => "missing required fields"@,
        APIErrorView::TransportError => "transport error"@,
    }
}

impl APIError {
    /// A sentence that names the failure.
    pub fn message(&self) -> (r: String)
        ensures
            r@ == api_error_text(self@),
    {
        match self {
            APIError::MissingCredential(Credential::ApiKey) => String::from_str(
                "missing required fields: api_key",
            ),
            APIError::MissingCredential(Credential::ApiSecret) => String::from_str(
                "missing required fields: api_secret",
            ),
            APIError::TokenRefreshFailed => String::from_str("token refresh failed"),
            APIError::MalformedToken => String::from_str("jwt parse"),
            APIError::MissingExpirationClaim => String::from_str("missing exp claim"),
            APIError::RemoteServiceError { code, message } => {
                let mut text = text_of_u64(*code as u64);
                text.append("-");
                text.append(message.as_str());
                text
            },
            APIError::ResponseParsingError => String::from_str("unable to parse response body"),
            APIError::UnknownContentType => String::from_str("unknown content type"),
            APIError::MissingFields => String::from_str("missing required fields"),
            APIError::TransportError => String::from_str("transport error"),
        }
    }
}

/// A result with its error, and its value, taken by their views.
pub open spec fn outcome_view<T: View, E: View>(r: Result<T, E>) -> Result<T::V, E::V> {
    match r {
        Ok(value) => Ok(value@),
        Err(error) => Err(error@),
    }
}

/// The error part of the service's answer.
#[derive(Debug, Clone, PartialEq, Eq)]
pub struct ErrorResponse {
    pub message: Option<String>,
    pub code: Option<u32>,
}

/// The descriptor of a prepared extract, to be redeemed by a file download.
#[derive(Debug, Clone, PartialEq, Eq)]
pub struct InitiateDataSourceDownloadResponse {
    pub id: String,
    pub container_id: String,
    pub data_source_id: Option<String>,
    pub file_name: String,
    /// The size in bytes, as a whole number.
    pub file_size: u64,
    pub md5hash: String,
}

/// An `InitiateDataSourceDownloadResponse` with its text as sequences of
/// characters.
pub struct DownloadHandleView {
    pub id: Seq<char>,
    pub container_id: Seq<char>,
    pub data_source_id: Option<Seq<char>>,
    pub file_name: Seq<char>,
    pub file_size: u64,
    pub md5hash: Seq<char>,
}

impl View for InitiateDataSourceDownloadResponse {
    type V = DownloadHandleView;

    open spec fn view(&self) -> DownloadHandleView {
        DownloadHandleView {
            id: self.id@,
            container_id: self.container_id@,
            data_source_id: text_view(self.data_source_id),
            file_name: self.file_name@,
            file_size: self.file_size,
            md5hash: self.md5hash@,
        }
    }
}

/// What a download is asked to cover.
#[derive(Debug, Clone, PartialEq, Eq)]
pub struct InitiateDataSourceDownloadQuery {
    pub start_time: Option<String>,
    pub end_time: Option<String>,
    pub secondary_index_name: Option<String>,
    pub secondary_index_start_value: Option<u64>,
}

/// An `InitiateDataSourceDownloadQuery` with its text as sequences of
/// characters.
pub struct DownloadQueryView {
    pub start_time: Option<Seq<char>>,
    pub end_time: Option<Seq<char>>,
    pub secondary_index_name: Option<Seq<char>>,
    pub secondary_index_start_value: Option<u64>,
}

impl View for InitiateDataSourceDownloadQuery {
    type V = DownloadQueryView;

    open spec fn view(&self) -> DownloadQueryView {
        DownloadQueryView {
            start_time: text_view(self.start_time),
            end_time: text_view(self.end_time),
            secondary_index_name: text_view(self.secondary_index_name),
            secondary_index_start_value: self.secondary_index_start_value,
        }
    }
}

/// The payload of the service's answer to a download request.
#[derive(Debug, Clone, PartialEq, Eq)]
pub enum DownloadPayload {
    /// The payload has the shape of a download handle.
    Handle(InitiateDataSourceDownloadResponse),
    /// The payload is there and has another shape.
    Unrecognized,
}

/// The envelope in which the service answers: a payload, an error, or neither.
#[derive(Debug, Clone, PartialEq, Eq)]
pub struct ApiResult {
    pub value: Option<DownloadPayload>,
    pub error: Option<ErrorResponse>,
}

/// The status code reported for a service error that names none.
pub const DEFAULT_ERROR_CODE: u32 = 500;

/// The message reported for a service error that carries none.
pub const DEFAULT_ERROR_MESSAGE: &'static str = "service error";

/// What an envelope amounts to: the handle it carries, or the failure it
/// reports. An error in the envelope wins over any payload; a missing or
/// misshapen payload is a parsing failure.
pub open spec fn envelope_outcome(envelope: ApiResult) -> Result<DownloadHandleView, APIErrorView> {
    match envelope.error {
        Some(error) => Err(
            APIErrorView::RemoteServiceError {
                code: match error.code {
                    Some(code) => code,
                    None => DEFAULT_ERROR_CODE,
                },
                message: match error.message {
                    Some(message) => message@,
                    None => DEFAULT_ERROR_MESSAGE@,
                },
            },
        ),
        None => match envelope.value {
            Some(DownloadPayload::Handle(handle)) => Ok(handle@),
            Some(DownloadPayload::Unrecognized) => Err(APIErrorView::ResponseParsingError),
            None => Err(APIErrorView::ResponseParsingError),
        },
    }
}

/// Reads the service's answer to a download request.
pub fn download_outcome(envelope: ApiResult) -> (r: Result<
    InitiateDataSourceDownloadResponse,
    APIError,
>)
    ensures
        outcome_view(r) == envelope_outcome(envelope),
        r matches Ok(handle) ==> envelope.value == Some(DownloadPayload::Handle(handle)),
{
    match envelope.error {
        Some(error) => {
            let code = match error.code {
                Some(code) => code,
                None => DEFAULT_ERROR_CODE,
            };
            let message = match error.message {
                Some(message) => message,
                None => String::from_str(DEFAULT_ERROR_MESSAGE),
            };
            Err(APIError::RemoteServiceError { code, message })
        },
        None => match envelope.value {
            Some(DownloadPayload::Handle(handle)) => Ok(handle),
            Some(DownloadPayload::Unrecognized) => Err(APIError::ResponseParsingError),
            None => Err(APIError::ResponseParsingError),
        },
    }
}

/// The verb of a request.
#[derive(Debug, Clone, Copy, PartialEq, Eq, Structural)]
pub enum Method {
    Get,
    Post,
}

/// One header of a request.
#[derive(Debug, Clone, PartialEq, Eq)]
pub struct Header {
    pub name: String,
    pub value: String,
}

/// A `Header` as sequences of characters.
pub struct HeaderView {
    pub name: Seq<char>,
    pub value: Seq<char>,
}

impl View for Header {
    type V = HeaderView;

    open spec fn view(&self) -> HeaderView {
        HeaderView { name: self.name@, value: self.value@ }
    }
}

/// What a request carries.
#[derive(Debug, Clone, PartialEq, Eq)]
pub enum Body {
    /// Nothing.
    Empty,
    /// The given bytes, sent as a JSON array of numbers.
    Json(Vec<u8>),
    /// A multipart form with one file field, streamed from the file at `path`
    /// and announced under `content_type`.
    File { field: String, path: String, content_type: String },
}

/// A `Body` with its text as sequences of characters.
pub enum BodyView {
    Empty,
    Json(Seq<u8>),
    File { field: Seq<char>, path: Seq<char>, content_type: Seq<char> },
}

impl View for Body {
    type V = BodyView;

    open spec fn view(&self) -> BodyView {
        match self {
            Body::Empty => BodyView::Empty,
            Body::Json(bytes) => BodyView::Json(bytes@),
            Body::File { field, path, content_type } => BodyView::File {
                field: field@,
                path: path@,
                content_type: content_type@,
            },
        }
    }
}

/// A list of headers, each taken by its view.
pub open spec fn headers_view(headers: Seq<Header>) -> Seq<HeaderView> {
    headers.map_values(|h: Header| h@)
}

/// A request to the remote service, ready to be sent.
#[derive(Debug, Clone, PartialEq, Eq)]
pub struct HttpRequest {
    pub method: Method,
    pub url: String,
    pub headers: Vec<Header>,
    pub body: Body,
}

/// An `HttpRequest` with its text as sequences of characters.
pub struct HttpRequestView {
    pub method: Method,
    pub url: Seq<char>,
    pub headers: Seq<HeaderView>,
    pub body: BodyView,
}

impl View for HttpRequest {
    type V = HttpRequestView;

    open spec fn view(&self) -> HttpRequestView {
        HttpRequestView {
            method: self.method,
            url: self.url@,
            headers: headers_view(self.headers@),
            body: self.body@,
        }
    }
}

/// What the caller does next for a call to the service.
#[derive(Debug, Clone, PartialEq, Eq)]
pub enum ClientStep {
    /// Send this request to the token endpoint, hand the body of the answer to
    /// `accept_token`, and build the call's request anew.
    FetchToken(HttpRequest),
    /// Send this request: it is the call itself.
    Send(HttpRequest),
}

/// A `ClientStep` with its requests taken by their views.
pub enum ClientStepView {
    FetchToken(HttpRequestView),
    Send(HttpRequestView),
}

impl View for ClientStep {
    type V = ClientStepView;

    open spec fn view(&self) -> ClientStepView {
        match self {
            ClientStep::FetchToken(request) => ClientStepView::FetchToken(request@),
            ClientStep::Send(request) => ClientStepView::Send(request@),
        }
    }
}

/// The name of the field under which a pushed file travels.
pub const FILE_FIELD: &'static str = "data";

/// The lifetime asked of every new token.
pub const TOKEN_LIFETIME: &'static str = "12h";

/// The headers that carry the bearer token, if one is held.
pub open spec fn bearer_headers(token: Option<Seq<char>>) -> Seq<HeaderView> {
    match token {
        Some(t) => seq![HeaderView { name: "Authorization"@, value: "Bearer "@ + t }],
        None => seq![],
    }
}

/// The address of the token endpoint.
pub open spec fn token_url(server: Seq<char>) -> Seq<char> {
    server + "/oauth/token"@
}

/// The request for a new token.
pub open spec fn token_request_view(
    server: Seq<char>,
    key: Seq<char>,
    secret: Seq<char>,
) -> HttpRequestView {
    HttpRequestView {
        method: Method::Get,
        url: token_url(server),
        headers: seq![
            HeaderView { name: "x-api-key"@, value: key },
            HeaderView { name: "x-api-secret"@, value: secret },
            HeaderView { name: "expiry"@, value: TOKEN_LIFETIME@ },
        ],
        body: BodyView::Empty,
    }
}

/// The text of an optional parameter: empty when it is absent.
pub open spec fn or_empty(t: Option<Seq<char>>) -> Seq<char> {
    match t {
        Some(s) => s,
        None => seq![],
    }
}

/// The number of an optional parameter: zero when it is absent.
pub open spec fn or_zero(n: Option<u64>) -> nat {
    match n {
        Some(v) => v as nat,
        None => 0,
    }
}

/// The address that asks for a download. All four parameters are written,
/// the absent ones as empty text or zero, and none is escaped.
pub open spec fn download_url(
    server: Seq<char>,
    container_id: u64,
    data_source_id: u64,
    query: DownloadQueryView,
) -> Seq<char> {
    server + "/containers/"@ + decimal(container_id as nat) + "/import/datasources/"@ + decimal(
        data_source_id as nat,
    ) + "/download?startTime="@ + or_empty(query.start_time) + "&endTime="@ + or_empty(
        query.end_time,
    ) + "&secondaryIndexName="@ + or_empty(query.secondary_index_name)
        + "&secondaryIndexStartValue="@ + decimal(or_zero(query.secondary_index_start_value))
}

/// The address from which a file is streamed.
pub open spec fn file_url(
    server: Seq<char>,
    container_id: u64,
    file_id: u64,
    delete_after: bool,
) -> Seq<char> {
    server + "/containers/"@ + decimal(container_id as nat) + "/files/"@ + decimal(file_id as nat)
        + "/download?deleteAfter="@ + bool_text(delete_after)
}

/// The address to which data is pushed.
pub open spec fn import_url(server: Seq<char>, container_id: u64, data_source_id: u64) -> Seq<
    char,
> {
    server + "/containers/"@ + decimal(container_id as nat) + "/import/datasources/"@ + decimal(
        data_source_id as nat,
    ) + "/imports?fastLoad=true"@
}

/// The session of one client: where the service is, the credentials, and the
/// token in use.
#[derive(Debug, PartialEq, Eq)]
pub struct DeepLynxAPI {
    server: String,
    bearer_token: Option<String>,
    api_key: Option<String>,
    api_secret: Option<String>,
    secured: bool,
}

/// A `DeepLynxAPI` with its text as sequences of characters.
pub struct SessionView {
    pub server: Seq<char>,
    pub bearer_token: Option<Seq<char>>,
    pub api_key: Option<Seq<char>>,
    pub api_secret: Option<Seq<char>>,
    pub secured: bool,
}

impl View for DeepLynxAPI {
    type V = SessionView;

    closed spec fn view(&self) -> SessionView {
        SessionView {
            server: self.server@,
            bearer_token: text_view(self.bearer_token),
            api_key: text_view(self.api_key),
            api_secret: text_view(self.api_secret),
            secured: self.secured,
        }
    }
}

/// What holds of every session: it is secured exactly when both credentials
/// are there, and an unsecured session holds no token.
pub open spec fn session_sound(s: SessionView) -> bool {
    &&& s.secured == (s.api_key is Some && s.api_secret is Some)
    &&& !s.secured ==> s.bearer_token is None
}

/// Whether a token with the expiration claim `claim` has run out at `now`, in
/// seconds since the Unix epoch: it has when the claim is at or before `now`.
/// `None` stands for a token that cannot be parsed, `Some(None)` for one that
/// carries no such claim; both are errors.
pub open spec fn claim_expiry(claim: Option<Option<u64>>, now: i64) -> Result<bool, APIErrorView> {
    match claim {
        None => Err(APIErrorView::MalformedToken),
        Some(None) => Err(APIErrorView::MissingExpirationClaim),
        Some(Some(expiration)) => Ok(expiration <= now),
    }
}

/// Whether the held token has run out at `now`. No token is no expired token.
pub open spec fn token_expiry(token: Option<Seq<char>>, now: i64) -> Result<bool, APIErrorView> {
    match token {
        None => Ok(false),
        Some(t) => claim_expiry(jwt_expiration(t), now),
    }
}

/// Whether a token with the expiration claim `claim` has run out at `now`.
pub fn expiry_of_claim(claim: Option<Option<u64>>, now: i64) -> (r: Result<bool, APIError>)
    ensures
        outcome_view(r) == claim_expiry(claim, now),
{
    match claim {
        None => Err(APIError::MalformedToken),
        Some(None) => Err(APIError::MissingExpirationClaim),
        Some(Some(expiration)) => Ok(now >= 0 && expiration <= now as u64),
    }
}

/// Whether a token has to be fetched before a call at `now`: never for an
/// unsecured session; for a secured one when none is held or the held one has
/// run out.
pub open spec fn refresh_needed(s: SessionView, now: i64) -> Result<bool, APIErrorView> {
    if !s.secured {
        Ok(false)
    } else if s.bearer_token is None {
        Ok(true)
    } else {
        token_expiry(s.bearer_token, now)
    }
}

/// The request for a new token, or the credential that is missing for it.
pub open spec fn token_request_of(s: SessionView) -> Result<HttpRequestView, APIErrorView> {
    match (s.api_key, s.api_secret) {
        (None, _) => Err(APIErrorView::MissingCredential(Credential::ApiKey)),
        (Some(_), None) => Err(APIErrorView::MissingCredential(Credential::ApiSecret)),
        (Some(key), Some(secret)) => Ok(token_request_view(s.server, key, secret)),
    }
}

/// The body of the token endpoint's answer without the quotation marks that
/// wrap it. A body that is not wrapped in them is taken as it is.
pub open spec fn unquoted(body: Seq<char>) -> Seq<char> {
    if body.len() >= 2 && body.first() == '"' && body.last() == '"' {
        body.subrange(1, body.len() - 1)
    } else {
        body
    }
}

/// What comes next for a call whose request would be `request`: the token
/// request when a token has to be fetched first, else the call itself.
pub open spec fn call_step(s: SessionView, now: i64, request: HttpRequestView) -> Result<
    ClientStepView,
    APIErrorView,
> {
    match refresh_needed(s, now) {
        Err(e) => Err(e),
        Ok(true) => match token_request_of(s) {
            Ok(token_request) => Ok(ClientStepView::FetchToken(token_request)),
            Err(e) => Err(e),
        },
        Ok(false) => Ok(ClientStepView::Send(request)),
    }
}

/// The request that asks for a download.
pub open spec fn download_request_view(
    s: SessionView,
    container_id: u64,
    data_source_id: u64,
    query: DownloadQueryView,
) -> HttpRequestView {
    HttpRequestView {
        method: Method::Get,
        url: download_url(s.server, container_id, data_source_id, query),
        headers: bearer_headers(s.bearer_token),
        body: BodyView::Empty,
    }
}

/// The request that streams a file.
pub open spec fn file_request_view(
    s: SessionView,
    container_id: u64,
    file_id: u64,
    delete_after: bool,
) -> HttpRequestView {
    HttpRequestView {
        method: Method::Get,
        url: file_url(s.server, container_id, file_id, delete_after),
        headers: bearer_headers(s.bearer_token),
        body: BodyView::Empty,
    }
}

/// What a push carries. A file goes before bytes, and travels under the
/// content type `guessed` from its name; a file of which nothing is guessed
/// is refused. With neither a file nor bytes there is nothing to push.
pub open spec fn import_body(
    file: Option<Seq<char>>,
    guessed: Option<Seq<char>>,
    data: Option<Seq<u8>>,
) -> Result<BodyView, APIErrorView> {
    match file {
        Some(path) => match guessed {
            Some(content_type) => Ok(BodyView::File { field: FILE_FIELD@, path, content_type }),
            None => Err(APIErrorView::UnknownContentType),
        },
        None => match data {
            Some(bytes) => Ok(BodyView::Json(bytes)),
            None => Err(APIErrorView::MissingFields),
        },
    }
}

/// The content type that is guessed for the file of a push, if there is a
/// file.
pub open spec fn guess_for(file: Option<Seq<char>>) -> Option<Seq<char>> {
    match file {
        Some(path) => guessed_content_type(path),
        None => None,
    }
}

/// The request that pushes a file or bytes.
pub open spec fn import_request_of(
    s: SessionView,
    container_id: u64,
    data_source_id: u64,
    file: Option<Seq<char>>,
    data: Option<Seq<u8>>,
) -> Result<HttpRequestView, APIErrorView> {
    match import_body(file, guess_for(file), data) {
        Ok(body) => Ok(
            HttpRequestView {
                method: Method::Post,
                url: import_url(s.server, container_id, data_source_id),
                headers: bearer_headers(s.bearer_token),
                body,
            },
        ),
        Err(e) => Err(e),
    }
}

/// What a push carries, given the content type that was guessed for its
/// file.
pub fn body_of_import(file: Option<String>, guessed: Option<String>, data: Option<Vec<u8>>) -> (r:
    Result<Body, APIError>)
    ensures
        outcome_view(r) == import_body(text_view(file), text_view(guessed), bytes_view(data)),
{
    match file {
        Some(path) => match guessed {
            Some(content_type) => Ok(
                Body::File { field: String::from_str(FILE_FIELD), path, content_type },
            ),
            None => Err(APIError::UnknownContentType),
        },
        None => match data {
            Some(bytes) => Ok(Body::Json(bytes)),
            None => Err(APIError::MissingFields),
        },
    }
}

/// What comes next for a push: the failure of the push's own arguments first,
/// then as for any call.
pub open spec fn import_step(
    s: SessionView,
    now: i64,
    container_id: u64,
    data_source_id: u64,
    file: Option<Seq<char>>,
    data: Option<Seq<u8>>,
) -> Result<ClientStepView, APIErrorView> {
    match import_request_of(s, container_id, data_source_id, file, data) {
        Ok(request) => call_step(s, now, request),
        Err(e) => Err(e),
    }
}

/// An optional run of bytes as an optional sequence.
pub open spec fn bytes_view(b: Option<Vec<u8>>) -> Option<Seq<u8>> {
    match b {
        Some(v) => Some(v@),
        None => None,
    }
}

impl Clone for DeepLynxAPI {
    /// A second session with the same state.
    fn clone(&self) -> (r: DeepLynxAPI)
        ensures
            r@ == self@,
    {
        proof {
            use_type_invariant(self);
        }
        DeepLynxAPI {
            server: self.server.clone(),
            bearer_token: copy_text(&self.bearer_token),
            api_key: copy_text(&self.api_key),
            api_secret: copy_text(&self.api_secret),
            secured: self.secured,
        }
    }
}

impl DeepLynxAPI {
    #[verifier::type_invariant]
    spec fn sound(self) -> bool {
        session_sound(self@)
    }

    /// A session with the service at `server`. It is secured when both
    /// credentials are given; a single credential is kept and not used.
    pub fn new(server: String, api_key: Option<String>, api_secret: Option<String>) -> (r: Result<
        DeepLynxAPI,
        APIError,
    >)
        ensures
            r matches Ok(client) && client@ == (SessionView {
                server: server@,
                bearer_token: None,
                api_key: text_view(api_key),
                api_secret: text_view(api_secret),
                secured: api_key is Some && api_secret is Some,
            }),
    {
        let secured = api_key.is_some() && api_secret.is_some();
        Ok(DeepLynxAPI { server, bearer_token: None, api_key, api_secret, secured })
    }

    /// Whether both credentials were given.
    pub fn secured(&self) -> (r: bool)
        ensures
            r == self@.secured,
            session_sound(self@),
    {
        proof {
            use_type_invariant(self);
        }
        self.secured
    }

    /// Whether a token is held.
    pub fn has_token(&self) -> (r: bool)
        ensures
            r == (self@.bearer_token is Some),
    {
        self.bearer_token.is_some()
    }

    /// Whether the held token has run out at `now`.
    pub fn token_expired_at(&self, now: i64) -> (r: Result<bool, APIError>)
        ensures
            outcome_view(r) == token_expiry(self@.bearer_token, now),
    {
        match &self.bearer_token {
            None => Ok(false),
            Some(token) => {
                let claim = match unverified_expiration(token.as_str()) {
                    Ok(claim) => Some(claim),
                    Err(_) => None,
                };
                expiry_of_claim(claim, now)
            },
        }
    }

    /// Whether the held token has run out by this machine's clock.
    pub fn token_expired(&self) -> (r: Result<bool, APIError>)
        ensures
            exists|now: i64| outcome_view(r) == #[trigger] token_expiry(self@.bearer_token, now),
    {
        let now = unix_time_now();
        self.token_expired_at(now)
    }

    /// Whether a token has to be fetched before a call at `now`.
    pub fn needs_token_at(&self, now: i64) -> (r: Result<bool, APIError>)
        ensures
            outcome_view(r) == refresh_needed(self@, now),
    {
        if !self.secured {
            Ok(false)
        } else if self.bearer_token.is_none() {
            Ok(true)
        } else {
            self.token_expired_at(now)
        }
    }

    /// The request for a new token.
    pub fn token_request(&self) -> (r: Result<HttpRequest, APIError>)
        ensures
            outcome_view(r) == token_request_of(self@),
    {
        let key = match &self.api_key {
            None => {
                return Err(APIError::MissingCredential(Credential::ApiKey));
            },
            Some(key) => key,
        };
        let secret = match &self.api_secret {
            None => {
                return Err(APIError::MissingCredential(Credential::ApiSecret));
            },
            Some(secret) => secret,
        };
        let mut url = self.server.clone();
        url.append("/oauth/token");
        let mut headers: Vec<Header> = Vec::new();
        headers.push(Header { name: String::from_str("x-api-key"), value: key.clone() });
        headers.push(Header { name: String::from_str("x-api-secret"), value: secret.clone() });
        headers.push(
            Header { name: String::from_str("expiry"), value: String::from_str(TOKEN_LIFETIME) },
        );
        let request = HttpRequest { method: Method::Get, url, headers, body: Body::Empty };
        assert(request@.headers =~= token_request_view(self@.server, key@, secret@).headers);
        Ok(request)
    }

    /// Takes the body of the token endpoint's answer as the new token. A
    /// session without both credentials takes none.
    pub fn accept_token(&mut self, body: &str) -> (r: Result<(), APIError>)
        ensures
            match token_request_of(old(self)@) {
                Ok(_) => r is Ok && final(self)@ == (SessionView {
                    bearer_token: Some(unquoted(body@)),
                    ..old(self)@
                }),
                Err(e) => outcome_view(r) == Err::<(), APIErrorView>(e) && final(self)@ == old(
                    self,
                )@,
            },
    {
        proof {
            use_type_invariant(&*self);
        }
        if self.api_key.is_none() {
            return Err(APIError::MissingCredential(Credential::ApiKey));
        }
        if self.api_secret.is_none() {
            return Err(APIError::MissingCredential(Credential::ApiSecret));
        }
        let length = body.unicode_len();
        let token = if length >= 2 && body.get_char(0) == '"' && body.get_char(length - 1) == '"' {
            String::from_str(body.substring_char(1, length - 1))
        } else {
            String::from_str(body)
        };
        self.bearer_token = Some(token);
        Ok(())
    }

    /// The headers that carry the held token.
    fn authorization(&self) -> (r: Vec<Header>)
        ensures
            headers_view(r@) == bearer_headers(self@.bearer_token),
    {
        let mut headers: Vec<Header> = Vec::new();
        match &self.bearer_token {
            Some(token) => {
                let mut value = String::from_str("Bearer ");
                value.append(token.as_str());
                headers.push(Header { name: String::from_str("Authorization"), value });
            },
            None => {},
        }
        assert(headers_view(headers@) =~= bearer_headers(self@.bearer_token));
        headers
    }

    /// What comes next for a call whose request is `request`.
    fn step_for(&self, now: i64, request: HttpRequest) -> (r: Result<ClientStep, APIError>)
        ensures
            outcome_view(r) == call_step(self@, now, request@),
    {
        match self.needs_token_at(now) {
            Err(e) => Err(e),
            Ok(true) => match self.token_request() {
                Ok(token_request) => Ok(ClientStep::FetchToken(token_request)),
                Err(e) => Err(e),
            },
            Ok(false) => Ok(ClientStep::Send(request)),
        }
    }

    /// The request that asks the service to prepare a download of what `query`
    /// covers. It carries the held token, if there is one.
    pub fn download_request(
        &self,
        container_id: u64,
        data_source_id: u64,
        query: &InitiateDataSourceDownloadQuery,
    ) -> (r: HttpRequest)
        ensures
            r@ == download_request_view(self@, container_id, data_source_id, query@),
    {
        let mut url = self.server.clone();
        url.append("/containers/");
        url.append(text_of_u64(container_id).as_str());
        url.append("/import/datasources/");
        url.append(text_of_u64(data_source_id).as_str());
        url.append("/download?startTime=");
        match &query.start_time {
            Some(t) => url.append(t.as_str()),
            None => {},
        }
        url.append("&endTime=");
        match &query.end_time {
            Some(t) => url.append(t.as_str()),
            None => {},
        }
        url.append("&secondaryIndexName=");
        match &query.secondary_index_name {
            Some(t) => url.append(t.as_str()),
            None => {},
        }
        url.append("&secondaryIndexStartValue=");
        let start_value = match query.secondary_index_start_value {
            Some(v) => v,
            None => 0,
        };
        url.append(text_of_u64(start_value).as_str());
        assert(url@ =~= download_url(self@.server, container_id, data_source_id, query@));
        HttpRequest { method: Method::Get, url, headers: self.authorization(), body: Body::Empty }
    }

    /// What comes next for a download request at `now`.
    pub fn initiate_data_source_download_at(
        &self,
        now: i64,
        container_id: u64,
        data_source_id: u64,
        query_options: InitiateDataSourceDownloadQuery,
    ) -> (r: Result<ClientStep, APIError>)
        ensures
            outcome_view(r) == call_step(
                self@,
                now,
                download_request_view(self@, container_id, data_source_id, query_options@),
            ),
    {
        let request = self.download_request(container_id, data_source_id, &query_options);
        self.step_for(now, request)
    }

    /// What comes next for a download request by this machine's clock: the
    /// token request when a token has to be fetched first, else the request
    /// itself.
    pub fn initiate_data_source_download(
        &self,
        container_id: u64,
        data_source_id: u64,
        query_options: InitiateDataSourceDownloadQuery,
    ) -> (r: Result<ClientStep, APIError>)
        ensures
            exists|now: i64|
                outcome_view(r) == #[trigger] call_step(
                    self@,
                    now,
                    download_request_view(self@, container_id, data_source_id, query_options@),
                ),
    {
        let now = unix_time_now();
        self.initiate_data_source_download_at(now, container_id, data_source_id, query_options)
    }

    /// The request that streams the file `file_id`. It carries the held token,
    /// if there is one.
    pub fn file_request(&self, container_id: u64, file_id: u64, delete_after: bool) -> (r:
        HttpRequest)
        ensures
            r@ == file_request_view(self@, container_id, file_id, delete_after),
    {
        let mut url = self.server.clone();
        url.append("/containers/");
        url.append(text_of_u64(container_id).as_str());
        url.append("/files/");
        url.append(text_of_u64(file_id).as_str());
        url.append("/download?deleteAfter=");
        url.append(text_of_bool(delete_after).as_str());
        assert(url@ =~= file_url(self@.server, container_id, file_id, delete_after));
        HttpRequest { method: Method::Get, url, headers: self.authorization(), body: Body::Empty }
    }

    /// What comes next for a file download at `now`.
    pub fn download_file_at(&self, now: i64, container_id: u64, file_id: u64, delete_after: bool) -> (r:
        Result<ClientStep, APIError>)
        ensures
            outcome_view(r) == call_step(
                self@,
                now,
                file_request_view(self@, container_id, file_id, delete_after),
            ),
    {
        let request = self.file_request(container_id, file_id, delete_after);
        self.step_for(now, request)
    }

    /// What comes next for a file download by this machine's clock. The body
    /// of the answer is the file; the caller consumes it.
    pub fn download_file(&self, container_id: u64, file_id: u64, delete_after: bool) -> (r: Result<
        ClientStep,
        APIError,
    >)
        ensures
            exists|now: i64|
                outcome_view(r) == #[trigger] call_step(
                    self@,
                    now,
                    file_request_view(self@, container_id, file_id, delete_after),
                ),
    {
        let now = unix_time_now();
        self.download_file_at(now, container_id, file_id, delete_after)
    }

    /// The request that pushes the file at `file`, or else the bytes `data`.
    pub fn import_request(
        &self,
        container_id: u64,
        data_source_id: u64,
        file: Option<String>,
        data: Option<Vec<u8>>,
    ) -> (r: Result<HttpRequest, APIError>)
        ensures
            outcome_view(r) == import_request_of(
                self@,
                container_id,
                data_source_id,
                text_view(file),
                bytes_view(data),
            ),
    {
        let guessed = match &file {
            Some(path) => guess_content_type(path.as_str()),
            None => None,
        };
        let body = match body_of_import(file, guessed, data) {
            Ok(body) => body,
            Err(e) => {
                return Err(e);
            },
        };
        let mut url = self.server.clone();
        url.append("/containers/");
        url.append(text_of_u64(container_id).as_str());
        url.append("/import/datasources/");
        url.append(text_of_u64(data_source_id).as_str());
        url.append("/imports?fastLoad=true");
        assert(url@ =~= import_url(self@.server, container_id, data_source_id));
        Ok(HttpRequest { method: Method::Post, url, headers: self.authorization(), body })
    }

    /// What comes next for a push at `now`.
    pub fn import_at(
        &self,
        now: i64,
        container_id: u64,
        data_source_id: u64,
        file: Option<String>,
        data: Option<Vec<u8>>,
    ) -> (r: Result<ClientStep, APIError>)
        ensures
            outcome_view(r) == import_step(
                self@,
                now,
                container_id,
                data_source_id,
                text_view(file),
                bytes_view(data),
            ),
    {
        match self.import_request(container_id, data_source_id, file, data) {
            Ok(request) => self.step_for(now, request),
            Err(e) => Err(e),
        }
    }

    /// What comes next for a push by this machine's clock. With neither a file
    /// nor bytes the answer is `MissingFields`, whatever the session holds.
    pub fn import(
        &self,
        container_id: u64,
        data_source_id: u64,
        file: Option<String>,
        data: Option<Vec<u8>>,
    ) -> (r: Result<ClientStep, APIError>)
        ensures
            exists|now: i64|
                outcome_view(r) == #[trigger] import_step(
                    self@,
                    now,
                    container_id,
                    data_source_id,
                    text_view(file),
                    bytes_view(data),
                ),
            file is None && data is None ==> outcome_view(r) == Err::<ClientStepView, APIErrorView>(
                APIErrorView::MissingFields,
            ),
    {
        let now = unix_time_now();
        self.import_at(now, container_id, data_source_id, file, data)
    }
}

} // verus!

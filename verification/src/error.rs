use vstd::prelude::*;
use vstd::string::*;

use kurrentdb::Error as E;

use crate::text::{debug_quoted, debug_text, decimal, decimal_text};

verus! {

#[verifier::external_type_specification]
#[verifier::external_body]
pub struct ExClientError(kurrentdb::Error);

#[verifier::external_type_specification]
#[verifier::external_body]
pub struct ExReport(eyre::Report);

/// Where the leader node of a cluster can be reached.
#[derive(Debug, PartialEq, Eq)]
pub struct Endpoint<S = String> {
    pub host: S,
    pub port: u32,
}

impl View for Endpoint {
    type V = Endpoint<Seq<char>>;

    open spec fn view(&self) -> Endpoint<Seq<char>> {
        Endpoint { host: self.host@, port: self.port }
    }
}

/// The failures that JavaScript callers see, each with its own error name.
#[derive(Debug, PartialEq, Eq)]
pub enum ErrorKind<S = String> {
    UnavailableError,
    StreamNotFoundError,
    StreamDeletedError,
    AccessDeniedError,
    ParseError(S),
    NotLeaderError(Endpoint<S>),
    UnknownError(S),
}

impl View for ErrorKind {
    type V = ErrorKind<Seq<char>>;

    open spec fn view(&self) -> ErrorKind<Seq<char>> {
        match self {
            ErrorKind::UnavailableError => ErrorKind::UnavailableError,
            ErrorKind::StreamNotFoundError => ErrorKind::StreamNotFoundError,
            ErrorKind::StreamDeletedError => ErrorKind::StreamDeletedError,
            ErrorKind::AccessDeniedError => ErrorKind::AccessDeniedError,
            ErrorKind::ParseError(m) => ErrorKind::ParseError(m@),
            ErrorKind::NotLeaderError(e) => ErrorKind::NotLeaderError(e@),
            ErrorKind::UnknownError(m) => ErrorKind::UnknownError(m@),
        }
    }
}

/// A client error, by the variants of `kurrentdb::Error` that the bridge tells apart.
#[derive(Debug, PartialEq, Eq)]
pub enum ClientFailure<S = String> {
    GrpcConnectionError,
    ResourceNotFound,
    ResourceDeleted,
    AccessDenied,
    NotLeaderException(Endpoint<S>),
    Other,
}

/// A client error: its variant, and the text that its `Display` impl writes.
#[derive(Debug, PartialEq, Eq)]
pub struct ClientErrorInfo<S = String> {
    pub failure: ClientFailure<S>,
    pub text: S,
}

impl View for ClientErrorInfo {
    type V = ClientErrorInfo<Seq<char>>;

    open spec fn view(&self) -> ClientErrorInfo<Seq<char>> {
        ClientErrorInfo {
            failure: match &self.failure {
                ClientFailure::GrpcConnectionError => ClientFailure::GrpcConnectionError,
                ClientFailure::ResourceNotFound => ClientFailure::ResourceNotFound,
                ClientFailure::ResourceDeleted => ClientFailure::ResourceDeleted,
                ClientFailure::AccessDenied => ClientFailure::AccessDenied,
                ClientFailure::NotLeaderException(e) => ClientFailure::NotLeaderException(e@),
                ClientFailure::Other => ClientFailure::Other,
            },
            text: self.text@,
        }
    }
}

/// The error kind of a client error: the five failures that JavaScript tells
/// apart keep their own kind, every other one is unknown and carries its text.
pub open spec fn kind_of_client_error(info: ClientErrorInfo<Seq<char>>) -> ErrorKind<Seq<char>> {
    match info.failure {
        ClientFailure::GrpcConnectionError => ErrorKind::UnavailableError,
        ClientFailure::ResourceNotFound => ErrorKind::StreamNotFoundError,
        ClientFailure::ResourceDeleted => ErrorKind::StreamDeletedError,
        ClientFailure::AccessDenied => ErrorKind::AccessDeniedError,
        ClientFailure::NotLeaderException(e) => ErrorKind::NotLeaderError(e),
        ClientFailure::Other => ErrorKind::UnknownError(info.text),
    }
}

/// What a `kurrentdb::Error` is, by the variants the bridge tells apart, and the text
/// that its `Display` impl writes.
pub uninterp spec fn client_error_info(e: kurrentdb::Error) -> ClientErrorInfo<Seq<char>>;

/// Tells the variants of `kurrentdb::Error` apart (one arm each, moving the leader's
/// endpoint out) and renders the error with its `Display` impl (`to_string`). Claims
/// that the result is `client_error_info` of the error: both depend on the error alone.
#[verifier::external_body]
fn inspect_client_error(e: kurrentdb::Error) -> (r: ClientErrorInfo)
    ensures
        r@ == client_error_info(e),
{
    let text = e.to_string();
    let failure = match e {
        E::GrpcConnectionError(_) => ClientFailure::GrpcConnectionError,
        E::ResourceNotFound => ClientFailure::ResourceNotFound,
        E::ResourceDeleted => ClientFailure::ResourceDeleted,
        E::AccessDenied => ClientFailure::AccessDenied,
        E::NotLeaderException(ep) => ClientFailure::NotLeaderException(
            Endpoint { host: ep.host, port: ep.port },
        ),
        _ => ClientFailure::Other,
    };
    ClientErrorInfo { failure, text }
}

/// The client error that a report wraps, when it wraps one.
pub uninterp spec fn report_client_error_of(r: eyre::Report) -> Option<kurrentdb::Error>;

/// The message of the connection-settings error that a report wraps, when it wraps one.
pub uninterp spec fn report_settings_message_of(r: eyre::Report) -> Option<Seq<char>>;

/// Calls `eyre::Report::downcast_ref::<kurrentdb::Error>` and clones what it finds.
/// Claims that the result is `report_client_error_of` the report: what a report wraps
/// is fixed when it is made.
#[verifier::external_body]
fn report_client_error(r: &eyre::Report) -> (found: Option<kurrentdb::Error>)
    ensures
        found == report_client_error_of(*r),
{
    r.downcast_ref::<kurrentdb::Error>().cloned()
}

/// Calls `eyre::Report::downcast_ref::<kurrentdb::ClientSettingsParseError>` and
/// converts what it finds to its `message()`. Claims that the result is
/// `report_settings_message_of` the report.
#[verifier::external_body]
fn report_settings_error(r: &eyre::Report) -> (found: Option<String>)
    ensures
        match found {
            Some(m) => report_settings_message_of(*r) == Some(m@),
            None => report_settings_message_of(*r) is None,
        },
{
    match r.downcast_ref::<kurrentdb::ClientSettingsParseError>() {
        Some(e) => Some(e.message().to_string()),
        None => None,
    }
}

/// Calls the `Display` impl of `eyre::Report` (`to_string`). Nothing is stated of the
/// result: a report writes itself through the handler that the process's hook
/// installed when the report was made, and a handler may write anything.
#[verifier::external_body]
fn report_text(r: &eyre::Report) -> (text: String) {
    r.to_string()
}

impl ErrorKind {
    /// The error kind of a client error whose variant and text are known.
    pub fn from_client_failure(info: ClientErrorInfo) -> (r: ErrorKind)
        ensures
            r@ == kind_of_client_error(info@),
    {
        match info.failure {
            ClientFailure::GrpcConnectionError => ErrorKind::UnavailableError,
            ClientFailure::ResourceNotFound => ErrorKind::StreamNotFoundError,
            ClientFailure::ResourceDeleted => ErrorKind::StreamDeletedError,
            ClientFailure::AccessDenied => ErrorKind::AccessDeniedError,
            ClientFailure::NotLeaderException(e) => ErrorKind::NotLeaderError(e),
            ClientFailure::Other => ErrorKind::UnknownError(info.text),
        }
    }

    /// The error kind of a `kurrentdb::Error`. A client error is never a parse error.
    pub fn from_client_error(e: kurrentdb::Error) -> (r: ErrorKind)
        ensures
            r@ == kind_of_client_error(client_error_info(e)),
            !(r is ParseError),
    {
        let info = inspect_client_error(e);
        ErrorKind::from_client_failure(info)
    }

    /// The error kind of a connection-settings error: a parse error with the
    /// settings error's message.
    pub fn from_settings_message(message: String) -> (r: ErrorKind)
        ensures
            r@ == ErrorKind::ParseError(message@),
    {
        ErrorKind::ParseError(message)
    }

    /// The error kind of an `eyre::Report`: that of the client error it wraps,
    /// else a parse error with the message of the settings error it wraps, else
    /// an unknown error with the report's text.
    pub fn from_report(report: &eyre::Report) -> (r: ErrorKind)
        ensures
            match report_client_error_of(*report) {
                Some(e) => r@ == kind_of_client_error(client_error_info(e)),
                None => match report_settings_message_of(*report) {
                    Some(m) => r@ == ErrorKind::ParseError(m),
                    None => r is UnknownError,
                },
            },
    {
        match report_client_error(report) {
            Some(e) => ErrorKind::from_client_error(e),
            None => match report_settings_error(report) {
                Some(m) => ErrorKind::from_settings_message(m),
                None => ErrorKind::UnknownError(report_text(report)),
            },
        }
    }
}

/// A value stored under a key of a JavaScript error's `metadata` object.
#[derive(Debug, PartialEq, Eq)]
pub enum MetadataValue<S = String> {
    Text(S),
    Number(u32),
}

impl View for MetadataValue {
    type V = MetadataValue<Seq<char>>;

    open spec fn view(&self) -> MetadataValue<Seq<char>> {
        match self {
            MetadataValue::Text(s) => MetadataValue::Text(s@),
            MetadataValue::Number(n) => MetadataValue::Number(*n),
        }
    }
}

/// What a JavaScript error thrown for an error kind holds: its `name`, its
/// message, and the entries of its `metadata` object, in order.
#[derive(Debug, PartialEq, Eq)]
pub struct JsErrorInfo<S = String, M = Vec<(String, MetadataValue)>> {
    pub name: S,
    pub message: S,
    pub metadata: M,
}

pub open spec fn metadata_entry_view(e: (String, MetadataValue)) -> (Seq<char>, MetadataValue<Seq<char>>) {
    (e.0@, e.1@)
}

impl View for JsErrorInfo {
    type V = JsErrorInfo<Seq<char>, Seq<(Seq<char>, MetadataValue<Seq<char>>)>>;

    open spec fn view(&self) -> Self::V {
        JsErrorInfo {
            name: self.name@,
            message: self.message@,
            metadata: self.metadata@.map_values(|e: (String, MetadataValue)| metadata_entry_view(e)),
        }
    }
}

/// The `name` of the JavaScript error for a kind: the kind's own name.
pub open spec fn error_name(kind: ErrorKind<Seq<char>>) -> Seq<char> {
    match kind {
        ErrorKind::UnavailableError => "UnavailableError"@,
        ErrorKind::StreamNotFoundError => "StreamNotFoundError"@,
        ErrorKind::StreamDeletedError => "StreamDeletedError"@,
        ErrorKind::AccessDeniedError => "AccessDeniedError"@,
        ErrorKind::ParseError(_) => "ParseError"@,
        ErrorKind::NotLeaderError(_) => "NotLeaderError"@,
        ErrorKind::UnknownError(_) => "UnknownError"@,
    }
}

/// The message of the JavaScript error for a kind: the carried message for parse
/// and unknown errors, otherwise the kind as `Debug` writes it.
pub open spec fn error_message(kind: ErrorKind<Seq<char>>) -> Seq<char> {
    match kind {
        ErrorKind::ParseError(m) => m,
        ErrorKind::UnknownError(m) => m,
        ErrorKind::NotLeaderError(e) => "NotLeaderError(Endpoint { host: "@ + debug_text(e.host)
            + ", port: "@ + decimal(e.port as nat) + " })"@,
        _ => error_name(kind),
    }
}

/// The `metadata` entries of the JavaScript error for a kind: the leader's host
/// and port for a not-leader error, the detail of an unknown error, none otherwise.
pub open spec fn error_metadata(kind: ErrorKind<Seq<char>>) -> Seq<(Seq<char>, MetadataValue<Seq<char>>)> {
    match kind {
        ErrorKind::NotLeaderError(e) => seq![
            ("leader-endpoint-host"@, MetadataValue::Text(e.host)),
            ("leader-endpoint-port"@, MetadataValue::Number(e.port)),
        ],
        ErrorKind::UnknownError(m) => seq![("detail"@, MetadataValue::Text(m))],
        _ => seq![],
    }
}

fn name_text(kind: &ErrorKind) -> (r: String)
    ensures
        r@ == error_name(kind@),
{
    match kind {
        ErrorKind::UnavailableError => String::from_str("UnavailableError"),
        ErrorKind::StreamNotFoundError => String::from_str("StreamNotFoundError"),
        ErrorKind::StreamDeletedError => String::from_str("StreamDeletedError"),
        ErrorKind::AccessDeniedError => String::from_str("AccessDeniedError"),
        ErrorKind::ParseError(_) => String::from_str("ParseError"),
        ErrorKind::NotLeaderError(_) => String::from_str("NotLeaderError"),
        ErrorKind::UnknownError(_) => String::from_str("UnknownError"),
    }
}

/// Describes the JavaScript error that is thrown for an error kind.
pub fn create_js_error(kind: &ErrorKind) -> (r: JsErrorInfo)
    ensures
        r@.name == error_name(kind@),
        r@.message == error_message(kind@),
        r@.metadata == error_metadata(kind@),
{
    let name = name_text(kind);
    let mut metadata: Vec<(String, MetadataValue)> = Vec::new();
    let message = match kind {
        ErrorKind::ParseError(m) => m.clone(),
        ErrorKind::UnknownError(m) => {
            metadata.push((String::from_str("detail"), MetadataValue::Text(m.clone())));
            m.clone()
        },
        ErrorKind::NotLeaderError(e) => {
            let mut s = String::from_str("NotLeaderError(Endpoint { host: ");
            let host = debug_quoted(e.host.as_str());
            s.append(host.as_str());
            s.append(", port: ");
            let port = decimal_text(e.port as u64);
            s.append(port.as_str());
            s.append(" })");
            metadata.push(
                (String::from_str("leader-endpoint-host"), MetadataValue::Text(e.host.clone())),
            );
            metadata.push((String::from_str("leader-endpoint-port"), MetadataValue::Number(e.port)));
            s
        },
        _ => name_text(kind),
    };
    let r = JsErrorInfo { name, message, metadata };
    assert(r@.metadata =~= error_metadata(kind@));
    r
}

/// The position of a kind among the kinds.
pub open spec fn kind_index(kind: ErrorKind<Seq<char>>) -> int {
    match kind {
        ErrorKind::UnavailableError => 0,
        ErrorKind::StreamNotFoundError => 1,
        ErrorKind::StreamDeletedError => 2,
        ErrorKind::AccessDeniedError => 3,
        ErrorKind::ParseError(_) => 4,
        ErrorKind::NotLeaderError(_) => 5,
        ErrorKind::UnknownError(_) => 6,
    }
}

/// JavaScript tells the kinds apart by the error's name: two errors share a name
/// exactly when they are of the same kind.
pub proof fn error_names_tell_kinds_apart(a: ErrorKind<Seq<char>>, b: ErrorKind<Seq<char>>)
    ensures
        error_name(a) == error_name(b) <==> kind_index(a) == kind_index(b),
{
    reveal_strlit("UnavailableError");
    reveal_strlit("StreamNotFoundError");
    reveal_strlit("StreamDeletedError");
    reveal_strlit("AccessDeniedError");
    reveal_strlit("ParseError");
    reveal_strlit("NotLeaderError");
    reveal_strlit("UnknownError");
    assert("UnavailableError"@.len() == 16);
    assert("StreamNotFoundError"@.len() == 19);
    assert("StreamDeletedError"@.len() == 18);
    assert("AccessDeniedError"@.len() == 17);
    assert("ParseError"@.len() == 10);
    assert("NotLeaderError"@.len() == 14);
    assert("UnknownError"@.len() == 12);
}

/// What a JavaScript error carries besides its name: a kind without a message is
/// described by its name alone and has no metadata; a parse error carries its
/// message and no metadata; an unknown error carries its text as the message and
/// as the `detail`; a not-leader error names the leader's host and port in its
/// metadata.
pub proof fn js_errors_carry_their_details(kind: ErrorKind<Seq<char>>)
    ensures
        kind_index(kind) < 4 ==> error_message(kind) == error_name(kind) && error_metadata(kind).len() == 0,
        match kind {
            ErrorKind::ParseError(m) => error_message(kind) == m && error_metadata(kind).len() == 0,
            ErrorKind::UnknownError(m) => error_message(kind) == m && error_metadata(kind) == seq![("detail"@, MetadataValue::Text(m))],
            ErrorKind::NotLeaderError(e) => error_metadata(kind).len() == 2 && error_metadata(kind)[0].1 == MetadataValue::Text(e.host) && error_metadata(kind)[1].1 == MetadataValue::<Seq<char>>::Number(e.port),
            _ => true,
        },
{
}

/// Each client failure reaches JavaScript as its own kind: a lost connection as
/// unavailable, a missing stream as not found, a deleted stream as deleted, a
/// refusal as access denied, a follower as not-leader with the leader's endpoint,
/// and any other failure as unknown with the error's text. None is a parse error.
pub proof fn client_failures_keep_their_kind(info: ClientErrorInfo<Seq<char>>)
    ensures
        ({
            let k = kind_of_client_error(info);
            &&& !(k is ParseError)
            &&& match info.failure {
                ClientFailure::GrpcConnectionError => k == ErrorKind::<Seq<char>>::UnavailableError,
                ClientFailure::ResourceNotFound => k == ErrorKind::<Seq<char>>::StreamNotFoundError,
                ClientFailure::ResourceDeleted => k == ErrorKind::<Seq<char>>::StreamDeletedError,
                ClientFailure::AccessDenied => k == ErrorKind::<Seq<char>>::AccessDeniedError,
                ClientFailure::NotLeaderException(e) => k == ErrorKind::NotLeaderError(e),
                ClientFailure::Other => k == ErrorKind::UnknownError(info.text),
            }
        }),
{
}

} // verus!

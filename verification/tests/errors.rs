use bridge::client::create;
use bridge::error::{
    create_js_error, ClientErrorInfo, ClientFailure, Endpoint, ErrorKind, MetadataValue,
};
use bridge::js::{JsValue, Thrown};
use bridge::text::decimal_text;

fn info(failure: ClientFailure, text: &str) -> ClientErrorInfo {
    ClientErrorInfo { failure, text: text.to_string() }
}

#[test]
fn client_failures_map_to_their_kinds() {
    assert_eq!(
        ErrorKind::from_client_failure(info(ClientFailure::GrpcConnectionError, "x")),
        ErrorKind::UnavailableError
    );
    assert_eq!(
        ErrorKind::from_client_failure(info(ClientFailure::ResourceNotFound, "x")),
        ErrorKind::StreamNotFoundError
    );
    assert_eq!(
        ErrorKind::from_client_failure(info(ClientFailure::ResourceDeleted, "x")),
        ErrorKind::StreamDeletedError
    );
    assert_eq!(
        ErrorKind::from_client_failure(info(ClientFailure::AccessDenied, "x")),
        ErrorKind::AccessDeniedError
    );
    assert_eq!(
        ErrorKind::from_client_failure(info(
            ClientFailure::NotLeaderException(Endpoint { host: "h".to_string(), port: 1 }),
            "x"
        )),
        ErrorKind::NotLeaderError(Endpoint { host: "h".to_string(), port: 1 })
    );
    assert_eq!(
        ErrorKind::from_client_failure(info(ClientFailure::Other, "Connection is closed.")),
        ErrorKind::UnknownError("Connection is closed.".to_string())
    );
}

#[test]
fn client_errors_map_to_their_kinds() {
    assert_eq!(
        ErrorKind::from_client_error(kurrentdb::Error::AccessDenied),
        ErrorKind::AccessDeniedError
    );
    assert_eq!(
        ErrorKind::from_client_error(kurrentdb::Error::ResourceNotFound),
        ErrorKind::StreamNotFoundError
    );
    assert_eq!(
        ErrorKind::from_client_error(kurrentdb::Error::ResourceDeleted),
        ErrorKind::StreamDeletedError
    );
    assert_eq!(
        ErrorKind::from_client_error(kurrentdb::Error::NotLeaderException(kurrentdb::Endpoint {
            host: "leader".to_string(),
            port: 2113,
        })),
        ErrorKind::NotLeaderError(Endpoint { host: "leader".to_string(), port: 2113 })
    );
    assert_eq!(
        ErrorKind::from_client_error(kurrentdb::Error::ServerError("oops".to_string())),
        ErrorKind::UnknownError("Server-side error: oops".to_string())
    );
    assert_eq!(
        ErrorKind::from_client_error(kurrentdb::Error::ConnectionClosed),
        ErrorKind::UnknownError("Connection is closed.".to_string())
    );
}

#[test]
fn reports_map_through_what_they_wrap() {
    let report = eyre::Report::new(kurrentdb::Error::ResourceDeleted);
    assert_eq!(ErrorKind::from_report(&report), ErrorKind::StreamDeletedError);
    let report = eyre::Report::msg("boom");
    assert_eq!(ErrorKind::from_report(&report), ErrorKind::UnknownError("boom".to_string()));
    let settings_error = "foo://localhost".parse::<kurrentdb::ClientSettings>().unwrap_err();
    let report = eyre::Report::new(settings_error);
    assert_eq!(
        ErrorKind::from_report(&report),
        ErrorKind::ParseError("Unknown URL scheme: foo".to_string())
    );
}

#[test]
fn settings_errors_are_parse_errors() {
    assert_eq!(
        ErrorKind::from_settings_message("bad".to_string()),
        ErrorKind::ParseError("bad".to_string())
    );
}

#[test]
fn js_errors_of_plain_kinds_are_named_after_them() {
    for (kind, name) in [
        (ErrorKind::UnavailableError, "UnavailableError"),
        (ErrorKind::StreamNotFoundError, "StreamNotFoundError"),
        (ErrorKind::StreamDeletedError, "StreamDeletedError"),
        (ErrorKind::AccessDeniedError, "AccessDeniedError"),
    ] {
        let e = create_js_error(&kind);
        assert_eq!(e.name, name);
        assert_eq!(e.message, name);
        assert!(e.metadata.is_empty());
    }
}

#[test]
fn js_error_of_a_parse_error_carries_its_message() {
    let e = create_js_error(&ErrorKind::ParseError("Unknown URL scheme: foo".to_string()));
    assert_eq!(e.name, "ParseError");
    assert_eq!(e.message, "Unknown URL scheme: foo");
    assert!(e.metadata.is_empty());
}

#[test]
fn js_error_of_an_unknown_error_carries_its_detail() {
    let e = create_js_error(&ErrorKind::UnknownError("boom".to_string()));
    assert_eq!(e.name, "UnknownError");
    assert_eq!(e.message, "boom");
    assert_eq!(e.metadata, vec![("detail".to_string(), MetadataValue::Text("boom".to_string()))]);
}

#[test]
fn js_error_of_a_not_leader_error_names_the_leader() {
    let kind = ErrorKind::NotLeaderError(Endpoint { host: "db.local".to_string(), port: 2113 });
    let e = create_js_error(&kind);
    assert_eq!(e.name, "NotLeaderError");
    assert_eq!(e.message, "NotLeaderError(Endpoint { host: \"db.local\", port: 2113 })");
    assert_eq!(
        e.metadata,
        vec![
            ("leader-endpoint-host".to_string(), MetadataValue::Text("db.local".to_string())),
            ("leader-endpoint-port".to_string(), MetadataValue::Number(2113)),
        ]
    );
    let escaped = create_js_error(&ErrorKind::NotLeaderError(Endpoint {
        host: "a\"b".to_string(),
        port: 0,
    }));
    assert_eq!(escaped.message, "NotLeaderError(Endpoint { host: \"a\\\"b\", port: 0 })");
}

#[test]
fn not_leader_message_matches_debug_of_the_client_endpoint() {
    let endpoint = kurrentdb::Endpoint { host: "node-2".to_string(), port: 1113 };
    let expected = format!("NotLeaderError({:?})", endpoint);
    let e = create_js_error(&ErrorKind::NotLeaderError(Endpoint { host: endpoint.host, port: 1113 }));
    assert_eq!(e.message, expected);
}

#[test]
fn create_parses_connection_strings() {
    assert!(create(&vec![JsValue::String("esdb://localhost:2113?tls=false".to_string())]).is_ok());
    match create(&vec![JsValue::String("foo://localhost".to_string())]) {
        Err(t) => assert_eq!(
            t,
            Thrown::Client(ErrorKind::ParseError("Unknown URL scheme: foo".to_string()))
        ),
        Ok(_) => panic!("accepted an unknown scheme"),
    }
}

#[test]
fn create_needs_a_string_argument() {
    match create(&vec![]) {
        Err(t) => assert_eq!(t, Thrown::TypeError("not enough arguments".to_string())),
        Ok(_) => panic!("accepted no argument"),
    }
    match create(&vec![JsValue::Boolean(true)]) {
        Err(t) => assert_eq!(t, Thrown::TypeError("failed to downcast any to string".to_string())),
        Ok(_) => panic!("accepted a boolean"),
    }
}

#[test]
fn decimal_text_writes_unsigned_integers() {
    assert_eq!(decimal_text(0), "0");
    assert_eq!(decimal_text(7), "7");
    assert_eq!(decimal_text(10), "10");
    assert_eq!(decimal_text(2113), "2113");
    assert_eq!(decimal_text(u64::MAX), u64::MAX.to_string());
}

#[test]
fn create_returns_the_parsed_settings() {
    let text = "esdb://node1:2113?tls=false";
    match create(&vec![JsValue::String(text.to_string())]) {
        Ok(settings) => assert_eq!(settings, text.parse::<kurrentdb::ClientSettings>().unwrap()),
        Err(t) => panic!("refused {:?}", t),
    }
}

use bridge::client::subscription_filter;
use bridge::client::authentication;
use bridge::js::{BigIntRead, JsHeap, JsObjectData, JsValue, Thrown};
use bridge::options::{
    authentication_from_js, read_all, read_stream, AllPosition, Credentials, Direction, FilterOn,
    FilterRequest, LogPosition, Options, ReadAllRequest, ReadStreamRequest, Revision,
};

fn text(s: &str) -> JsValue {
    JsValue::String(s.to_string())
}

fn big(value: u64) -> JsValue {
    JsValue::BigInt(BigIntRead { value, lossless: true })
}

fn lossy(value: u64) -> JsValue {
    JsValue::BigInt(BigIntRead { value, lossless: false })
}

fn object(heap: &mut JsHeap, props: Vec<(&str, JsValue)>) -> JsValue {
    heap.objects.push(JsObjectData {
        props: props.into_iter().map(|(k, v)| (k.to_string(), v)).collect(),
        elements: None,
    });
    JsValue::Object(heap.objects.len() - 1)
}

fn array(heap: &mut JsHeap, elements: Vec<JsValue>) -> JsValue {
    heap.objects.push(JsObjectData { props: Vec::new(), elements: Some(elements) });
    JsValue::Object(heap.objects.len() - 1)
}

fn empty_heap() -> JsHeap {
    JsHeap { objects: Vec::new() }
}

fn default_stream_request() -> ReadStreamRequest {
    ReadStreamRequest {
        direction: Direction::Forwards,
        revision: None,
        credentials: None,
        max_count: None,
        requires_leader: false,
        resolve_link_tos: false,
    }
}

fn default_all_request() -> ReadAllRequest {
    ReadAllRequest {
        direction: Direction::Forwards,
        position: AllPosition::Start,
        credentials: None,
        max_count: None,
        requires_leader: false,
        resolve_link_tos: false,
        filter: None,
    }
}

fn stream_with(heap: &mut JsHeap, props: Vec<(&str, JsValue)>) -> Result<Options, Thrown> {
    let params = object(heap, props);
    read_stream(&vec![text("orders"), params], heap)
}

fn all_with(heap: &mut JsHeap, props: Vec<(&str, JsValue)>) -> Result<Options, Thrown> {
    let params = object(heap, props);
    read_all(&vec![params], heap)
}

fn error(m: &str) -> Thrown {
    Thrown::Error(m.to_string())
}

fn type_error(m: &str) -> Thrown {
    Thrown::TypeError(m.to_string())
}

#[test]
fn read_stream_without_options_takes_defaults() {
    let heap = empty_heap();
    let r = read_stream(&vec![text("orders")], &heap);
    assert_eq!(
        r,
        Ok(Options::Regular { stream_name: "orders".to_string(), options: default_stream_request() })
    );
}

#[test]
fn read_stream_with_non_object_options_takes_defaults() {
    let heap = empty_heap();
    let r = read_stream(&vec![text("orders"), text("backwards")], &heap);
    assert_eq!(
        r,
        Ok(Options::Regular { stream_name: "orders".to_string(), options: default_stream_request() })
    );
}

#[test]
fn read_stream_reads_every_option() {
    let mut heap = empty_heap();
    let creds = object(&mut heap, vec![("username", text("admin")), ("password", text("changeit"))]);
    let r = stream_with(
        &mut heap,
        vec![
            ("direction", text("backwards")),
            ("fromRevision", big(42)),
            ("credentials", creds),
            ("maxCount", big(10)),
            ("requiresLeader", JsValue::Boolean(true)),
            ("resolvesLink", JsValue::Boolean(true)),
        ],
    );
    assert_eq!(
        r,
        Ok(Options::Regular {
            stream_name: "orders".to_string(),
            options: ReadStreamRequest {
                direction: Direction::Backwards,
                revision: Some(Revision::At(42)),
                credentials: Some(Credentials::Basic {
                    username: "admin".to_string(),
                    password: "changeit".to_string(),
                }),
                max_count: Some(10),
                requires_leader: true,
                resolve_link_tos: true,
            },
        })
    );
}

#[test]
fn read_stream_start_and_end_revisions() {
    let mut heap = empty_heap();
    let start = stream_with(&mut heap, vec![("fromRevision", text("start"))]);
    let end = stream_with(&mut heap, vec![("fromRevision", text("end"))]);
    match (start, end) {
        (Ok(Options::Regular { options: s, .. }), Ok(Options::Regular { options: e, .. })) => {
            assert_eq!(s.revision, Some(Revision::Start));
            assert_eq!(e.revision, Some(Revision::End));
        }
        other => panic!("unexpected {:?}", other),
    }
}

#[test]
fn read_stream_needs_a_stream_name() {
    let heap = empty_heap();
    assert_eq!(read_stream(&vec![], &heap), Err(type_error("not enough arguments")));
    assert_eq!(
        read_stream(&vec![JsValue::Number], &heap),
        Err(type_error("failed to downcast any to string"))
    );
}

#[test]
fn read_stream_rejects_an_unknown_direction() {
    let mut heap = empty_heap();
    let r = stream_with(&mut heap, vec![("direction", text("sideways"))]);
    assert_eq!(r, Err(error("invalid direction value: 'sideways'")));
}

#[test]
fn read_stream_rejects_a_direction_that_is_not_a_string() {
    let mut heap = empty_heap();
    let r = stream_with(&mut heap, vec![("direction", JsValue::Null)]);
    assert_eq!(r, Err(type_error("failed to downcast any to string")));
}

#[test]
fn read_stream_rejects_an_unknown_revision() {
    let mut heap = empty_heap();
    let r = stream_with(&mut heap, vec![("fromRevision", text("middle"))]);
    assert_eq!(r, Err(error("invalid fromRevision value: 'middle'")));
    let r = stream_with(&mut heap, vec![("fromRevision", JsValue::Number)]);
    assert_eq!(r, Err(error("fromRevision can only be 'start', 'end' or a bigint")));
}

#[test]
fn read_stream_rejects_a_revision_that_does_not_fit() {
    let mut heap = empty_heap();
    let r = stream_with(&mut heap, vec![("fromRevision", lossy(18446744073709551615))]);
    assert_eq!(r, Err(error("Loss of precision reading BigInt (18446744073709551615)")));
}

#[test]
fn read_stream_rejects_a_max_count_that_is_not_a_bigint() {
    let mut heap = empty_heap();
    let r = stream_with(&mut heap, vec![("maxCount", JsValue::Number)]);
    assert_eq!(r, Err(type_error("failed to downcast any to BigInt")));
    let r = stream_with(&mut heap, vec![("maxCount", lossy(3))]);
    assert_eq!(r, Err(error("Loss of precision reading BigInt (3)")));
}

#[test]
fn read_stream_rejects_flags_that_are_not_booleans() {
    let mut heap = empty_heap();
    let r = stream_with(&mut heap, vec![("requiresLeader", text("yes"))]);
    assert_eq!(r, Err(type_error("failed to downcast any to boolean")));
    let r = stream_with(&mut heap, vec![("resolvesLink", big(1))]);
    assert_eq!(r, Err(type_error("failed to downcast any to boolean")));
}

#[test]
fn read_stream_reports_the_first_wrong_option() {
    let mut heap = empty_heap();
    let r = stream_with(
        &mut heap,
        vec![("maxCount", JsValue::Number), ("direction", text("up"))],
    );
    assert_eq!(r, Err(error("invalid direction value: 'up'")));
}

#[test]
fn read_stream_rejects_credentials_that_are_not_an_object() {
    let mut heap = empty_heap();
    let r = stream_with(&mut heap, vec![("credentials", text("admin:changeit"))]);
    assert_eq!(r, Err(type_error("failed to downcast any to object")));
}

#[test]
fn bearer_token_takes_precedence() {
    let mut heap = empty_heap();
    let creds = object(
        &mut heap,
        vec![("username", text("admin")), ("password", text("pw")), ("bearerToken", text("abc.def"))],
    );
    assert_eq!(authentication_from_js(&heap, &creds), Ok(Credentials::Bearer("abc.def".to_string())));
}

#[test]
fn bearer_token_must_be_a_string() {
    let mut heap = empty_heap();
    let creds = object(&mut heap, vec![("bearerToken", JsValue::Null), ("username", text("u"))]);
    assert_eq!(
        authentication_from_js(&heap, &creds),
        Err(type_error("credentials.bearerToken must be a string"))
    );
}

#[test]
fn credentials_need_both_username_and_password() {
    let mut heap = empty_heap();
    let creds = object(&mut heap, vec![("username", text("admin"))]);
    assert_eq!(
        authentication_from_js(&heap, &creds),
        Err(type_error("credentials must include either { bearerToken } or { username, password }"))
    );
    let undefined_token = object(
        &mut heap,
        vec![("bearerToken", JsValue::Undefined), ("username", text("a")), ("password", text("b"))],
    );
    assert_eq!(
        authentication_from_js(&heap, &undefined_token),
        Ok(Credentials::Basic { username: "a".to_string(), password: "b".to_string() })
    );
}

#[test]
fn read_all_without_arguments_takes_defaults() {
    let heap = empty_heap();
    assert_eq!(read_all(&vec![], &heap), Ok(Options::All(default_all_request())));
}

#[test]
fn read_all_reads_a_log_position() {
    let mut heap = empty_heap();
    let pos = object(&mut heap, vec![("commit", big(100)), ("prepare", big(99))]);
    let r = all_with(&mut heap, vec![("fromPosition", pos), ("direction", text("backwards"))]);
    let mut expected = default_all_request();
    expected.direction = Direction::Backwards;
    expected.position = AllPosition::At(LogPosition { commit: 100, prepare: 99 });
    assert_eq!(r, Ok(Options::All(expected)));
}

#[test]
fn read_all_start_and_end_positions() {
    let mut heap = empty_heap();
    let r = all_with(&mut heap, vec![("fromPosition", text("end"))]);
    let mut expected = default_all_request();
    expected.position = AllPosition::End;
    assert_eq!(r, Ok(Options::All(expected)));
    let r = all_with(&mut heap, vec![("fromPosition", text("later"))]);
    assert_eq!(r, Err(error("invalid fromPosition value: 'later'")));
    let r = all_with(&mut heap, vec![("fromPosition", big(5))]);
    assert_eq!(
        r,
        Err(error("fromPosition can only be 'start', 'end' or an object with 'commit' and 'prepare'"))
    );
}

#[test]
fn read_all_position_needs_commit_and_prepare() {
    let mut heap = empty_heap();
    let pos = object(&mut heap, vec![("commit", big(1))]);
    let r = all_with(&mut heap, vec![("fromPosition", pos)]);
    assert_eq!(r, Err(type_error("failed to downcast any to BigInt")));
    // The missing `prepare` is noticed before the lossy `commit`.
    let pos = object(&mut heap, vec![("commit", lossy(9))]);
    let r = all_with(&mut heap, vec![("fromPosition", pos)]);
    assert_eq!(r, Err(type_error("failed to downcast any to BigInt")));
    // With both present, the lossy `commit` is reported before the lossy `prepare`.
    let pos = object(&mut heap, vec![("commit", lossy(9)), ("prepare", lossy(8))]);
    let r = all_with(&mut heap, vec![("fromPosition", pos)]);
    assert_eq!(r, Err(error("Loss of precision reading BigInt (9)")));
    let pos = object(&mut heap, vec![("commit", big(9)), ("prepare", lossy(8))]);
    let r = all_with(&mut heap, vec![("fromPosition", pos)]);
    assert_eq!(r, Err(error("Loss of precision reading BigInt (8)")));
}

#[test]
fn read_all_reads_a_filter() {
    let mut heap = empty_heap();
    let prefixes = array(&mut heap, vec![text("user-"), text("order-")]);
    let filter = object(
        &mut heap,
        vec![("filterOn", text("eventType")), ("prefixes", prefixes), ("regex", text("^x"))],
    );
    let r = all_with(&mut heap, vec![("filter", filter)]);
    let mut expected = default_all_request();
    expected.filter = Some(FilterRequest {
        on: FilterOn::EventType,
        prefixes: vec!["user-".to_string(), "order-".to_string()],
        regex: Some("^x".to_string()),
    });
    assert_eq!(r, Ok(Options::All(expected)));
}

#[test]
fn read_all_filter_on_stream_name_without_prefixes() {
    let mut heap = empty_heap();
    let filter = object(&mut heap, vec![("filterOn", text("streamName"))]);
    let r = all_with(&mut heap, vec![("filter", filter)]);
    let mut expected = default_all_request();
    expected.filter = Some(FilterRequest { on: FilterOn::StreamName, prefixes: vec![], regex: None });
    assert_eq!(r, Ok(Options::All(expected)));
}

#[test]
fn read_all_rejects_malformed_filters() {
    let mut heap = empty_heap();
    let filter = object(&mut heap, vec![]);
    assert_eq!(
        all_with(&mut heap, vec![("filter", filter)]),
        Err(error("filter.filterOn must be 'streamName' or 'eventType'"))
    );
    let filter = object(&mut heap, vec![("filterOn", text("streamName")), ("prefixes", text("a"))]);
    assert_eq!(
        all_with(&mut heap, vec![("filter", filter)]),
        Err(type_error("failed to downcast any to Array"))
    );
    let prefixes = array(&mut heap, vec![text("a"), JsValue::Undefined]);
    let filter = object(&mut heap, vec![("filterOn", text("streamName")), ("prefixes", prefixes)]);
    assert_eq!(
        all_with(&mut heap, vec![("filter", filter)]),
        Err(type_error("failed to downcast any to string"))
    );
    let filter = object(&mut heap, vec![("filterOn", text("eventType")), ("regex", JsValue::Number)]);
    assert_eq!(
        all_with(&mut heap, vec![("filter", filter)]),
        Err(type_error("failed to downcast any to string"))
    );
    assert_eq!(
        all_with(&mut heap, vec![("filter", text("streamName"))]),
        Err(type_error("failed to downcast any to object"))
    );
}

#[test]
fn shared_options_are_read_alike_by_both_reads() {
    let mut heap = empty_heap();
    let creds = object(&mut heap, vec![("bearerToken", text("t"))]);
    let params = object(
        &mut heap,
        vec![
            ("direction", text("backwards")),
            ("credentials", creds),
            ("maxCount", big(7)),
            ("requiresLeader", JsValue::Boolean(true)),
        ],
    );
    let s = read_stream(&vec![text("s"), JsValue::Object(match params {
        JsValue::Object(i) => i,
        _ => unreachable!(),
    })], &heap);
    let a = read_all(&vec![params], &heap);
    match (s, a) {
        (Ok(Options::Regular { options: s, .. }), Ok(Options::All(a))) => {
            assert_eq!(s.direction, a.direction);
            assert_eq!(s.credentials, a.credentials);
            assert_eq!(s.max_count, a.max_count);
            assert_eq!(s.requires_leader, a.requires_leader);
            assert_eq!(s.resolve_link_tos, a.resolve_link_tos);
        }
        other => panic!("unexpected {:?}", other),
    }
}

#[test]
fn options_convert_to_client_options() {
    let request = ReadStreamRequest {
        direction: Direction::Backwards,
        revision: Some(Revision::End),
        credentials: Some(Credentials::Bearer("t".to_string())),
        max_count: Some(5),
        requires_leader: true,
        resolve_link_tos: true,
    };
    let _ = request.to_client_options();
    let mut all = default_all_request();
    all.filter = Some(FilterRequest {
        on: FilterOn::EventType,
        prefixes: vec!["a".to_string()],
        regex: Some("^b".to_string()),
    });
    all.credentials = Some(Credentials::Basic { username: "u".to_string(), password: "p".to_string() });
    let _ = all.to_client_options();
}

#[test]
fn credentials_become_client_authentication() {
    assert_eq!(
        authentication(&Credentials::Bearer("abc.def".to_string())),
        kurrentdb::Authentication::bearer("abc.def")
    );
    assert_eq!(
        authentication(&Credentials::Basic { username: "admin".to_string(), password: "pw".to_string() }),
        kurrentdb::Authentication::basic("admin", "pw")
    );
    assert_ne!(
        authentication(&Credentials::Basic { username: "admin".to_string(), password: "pw".to_string() }),
        kurrentdb::Authentication::basic("pw", "admin")
    );
}

#[test]
fn filter_requests_become_client_filters() {
    let request = FilterRequest {
        on: FilterOn::EventType,
        prefixes: vec!["a".to_string(), "b".to_string()],
        regex: Some("^x".to_string()),
    };
    let expected = kurrentdb::SubscriptionFilter::on_event_type().add_prefix("a").add_prefix("b").regex("^x");
    assert_eq!(format!("{:?}", subscription_filter(&request)), format!("{:?}", expected));
    let request = FilterRequest { on: FilterOn::StreamName, prefixes: vec![], regex: None };
    let expected = kurrentdb::SubscriptionFilter::on_stream_name();
    assert_eq!(format!("{:?}", subscription_filter(&request)), format!("{:?}", expected));
}

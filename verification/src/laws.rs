use vstd::prelude::*;

use crate::text::decimal;

use crate::client::{client_all_options, client_stream_options, FilterContents};
use crate::js::{elements_of, prop, JsHeap, JsValue, Thrown};
use crate::options::{
    all_request, params_at, read_all_call, read_stream_call, stream_request, AllPosition,
    Credentials, Direction, FilterOn, LogPosition, Options, ReadAllRequest, ReadStreamRequest,
    Revision,
};

verus! {

/// A read of one stream whose options object is absent, or not an object, reads
/// forwards from wherever the client starts, without credentials or a limit,
/// without requiring the leader and without resolving links.
pub proof fn omitted_stream_options_take_defaults(heap: &JsHeap)
    ensures
        stream_request(heap, &JsValue::Undefined) == Ok::<ReadStreamRequest<Seq<char>>, Thrown<Seq<char>>>(
            ReadStreamRequest {
                direction: Direction::Forwards,
                revision: None,
                credentials: None,
                max_count: None,
                requires_leader: false,
                resolve_link_tos: false,
            },
        ),
{
}

/// A read of all events whose options object is absent, or not an object, reads
/// forwards from the start of the log, without credentials, a limit or a filter,
/// without requiring the leader and without resolving links.
pub proof fn omitted_all_options_take_defaults(heap: &JsHeap)
    ensures
        all_request(heap, &JsValue::Undefined) == Ok::<ReadAllRequest<Seq<char>, Seq<Seq<char>>>, Thrown<Seq<char>>>(
            ReadAllRequest {
                direction: Direction::Forwards,
                position: AllPosition::Start,
                credentials: None,
                max_count: None,
                requires_leader: false,
                resolve_link_tos: false,
                filter: None,
            },
        ),
{
}

/// `readStream(name, options)` and `readAll(options)` read the options they share
/// alike: when both succeed, they ask for the same direction, credentials, limit,
/// leader requirement and link resolution. Both look at the same options object.
pub proof fn shared_options_read_alike(stream_args: Seq<JsValue>, heap: &JsHeap)
    requires
        stream_args.len() >= 2,
    ensures
        ({
            let all_args = stream_args.drop_first();
            match (read_stream_call(stream_args, heap), read_all_call(all_args, heap)) {
                (Ok(Options::Regular { options: s, .. }), Ok(Options::All(a))) => {
                    &&& s.direction == a.direction
                    &&& s.credentials == a.credentials
                    &&& s.max_count == a.max_count
                    &&& s.requires_leader == a.requires_leader
                    &&& s.resolve_link_tos == a.resolve_link_tos
                },
                _ => true,
            }
        }),
        params_at(stream_args, 1) == params_at(stream_args.drop_first(), 0),
{
    assert(stream_args.drop_first()[0] == stream_args[1]);
}

/// Whether a JavaScript value is the given text.
pub open spec fn is_text(v: JsValue, t: Seq<char>) -> bool {
    v matches JsValue::String(s) && s@ == t
}

proof fn lemma_option_words_differ()
    ensures
        "forwards"@ != "backwards"@,
        "start"@ != "end"@,
        "streamName"@ != "eventType"@,
{
    reveal_strlit("forwards");
    reveal_strlit("backwards");
    reveal_strlit("start");
    reveal_strlit("end");
    reveal_strlit("streamName");
    reveal_strlit("eventType");
    assert("forwards"@.len() == 8);
    assert("backwards"@.len() == 9);
    assert("start"@.len() == 5);
    assert("end"@.len() == 3);
    assert("streamName"@.len() == 10);
    assert("eventType"@.len() == 9);
}

/// A read goes the way its `direction` option says: a successful read of one
/// stream or of all events reads backwards exactly when the option is the text
/// "backwards", and forwards when it is "forwards" or absent. Any other text is
/// refused with an error that quotes it, before any other option is looked at.
pub proof fn direction_follows_option(heap: &JsHeap, params: &JsValue)
    ensures
        stream_request(heap, params) matches Ok(r) ==> (r.direction == Direction::Backwards
            <==> is_text(prop(heap, params, "direction"@), "backwards"@)),
        all_request(heap, params) matches Ok(a) ==> (a.direction == Direction::Backwards
            <==> is_text(prop(heap, params, "direction"@), "backwards"@)),
        is_text(prop(heap, params, "direction"@), "forwards"@) ==> (stream_request(heap, params) matches Ok(r) ==> r.direction == Direction::Forwards),
        is_text(prop(heap, params, "direction"@), "forwards"@) ==> (all_request(heap, params) matches Ok(a) ==> a.direction == Direction::Forwards),
        match prop(heap, params, "direction"@) {
            JsValue::String(s) => (s@ != "forwards"@ && s@ != "backwards"@) ==> ({
                let e = Thrown::Error("invalid direction value: '"@ + s@ + "'"@);
                &&& stream_request(heap, params) == Err::<ReadStreamRequest<Seq<char>>, Thrown<Seq<char>>>(e)
                &&& all_request(heap, params) == Err::<ReadAllRequest<Seq<char>, Seq<Seq<char>>>, Thrown<Seq<char>>>(e)
            }),
            _ => true,
        },
{
    lemma_option_words_differ();
}

/// A read of one stream starts where its `fromRevision` option says: at the start
/// for "start", at the end for "end", at the given revision for a `BigInt` that
/// fits, and where the client starts when the option is absent.
pub proof fn revision_follows_option(heap: &JsHeap, params: &JsValue)
    ensures
        stream_request(heap, params) matches Ok(r) ==> {
            let v = prop(heap, params, "fromRevision"@);
            &&& v is Undefined ==> r.revision is None
            &&& is_text(v, "start"@) ==> r.revision == Some(Revision::Start)
            &&& is_text(v, "end"@) ==> r.revision == Some(Revision::End)
            &&& v matches JsValue::BigInt(b) ==> b.lossless && r.revision == Some(Revision::At(b.value))
            &&& v is Undefined || is_text(v, "start"@) || is_text(v, "end"@) || v is BigInt
        },
{
    lemma_option_words_differ();
}

/// A read of all events starts where its `fromPosition` option says: at the start
/// of the log for "start" or when the option is absent, at its end for "end", and
/// at the given commit and prepare positions (in that order) for an object.
pub proof fn position_follows_option(heap: &JsHeap, params: &JsValue)
    ensures
        all_request(heap, params) matches Ok(a) ==> {
            let v = prop(heap, params, "fromPosition"@);
            &&& v is Undefined ==> a.position == AllPosition::Start
            &&& is_text(v, "start"@) ==> a.position == AllPosition::Start
            &&& is_text(v, "end"@) ==> a.position == AllPosition::End
            &&& (v is Object) ==> (prop(heap, &v, "commit"@) matches JsValue::BigInt(c) && prop(
                heap,
                &v,
                "prepare"@,
            ) matches JsValue::BigInt(p) && c.lossless && p.lossless && a.position == AllPosition::At(
                LogPosition { commit: c.value, prepare: p.value },
            ))
            &&& v is Undefined || is_text(v, "start"@) || is_text(v, "end"@) || v is Object
        },
{
    lemma_option_words_differ();
}

/// The limit, the leader requirement and link resolution of a successful read are
/// the ones its options give: the limit is the `maxCount` `BigInt` (none when
/// absent), and each flag is set exactly when its option is `true`.
pub proof fn limit_and_flags_follow_options(heap: &JsHeap, params: &JsValue)
    ensures
        stream_request(heap, params) matches Ok(r) ==> {
            &&& (prop(heap, params, "maxCount"@) is Undefined ==> r.max_count is None)
            &&& (prop(heap, params, "maxCount"@) matches JsValue::BigInt(b) ==> b.lossless
                && r.max_count == Some(b.value))
            &&& r.requires_leader == (prop(heap, params, "requiresLeader"@) == JsValue::Boolean(true))
            &&& r.resolve_link_tos == (prop(heap, params, "resolvesLink"@) == JsValue::Boolean(true))
        },
        all_request(heap, params) matches Ok(a) ==> {
            &&& (prop(heap, params, "maxCount"@) is Undefined ==> a.max_count is None)
            &&& (prop(heap, params, "maxCount"@) matches JsValue::BigInt(b) ==> b.lossless
                && a.max_count == Some(b.value))
            &&& a.requires_leader == (prop(heap, params, "requiresLeader"@) == JsValue::Boolean(true))
            &&& a.resolve_link_tos == (prop(heap, params, "resolvesLink"@) == JsValue::Boolean(true))
        },
{
}

/// The credentials of a successful read are the ones its `credentials` object
/// gives: none when absent; the bearer token when one is defined; otherwise the
/// username and password.
pub proof fn credentials_follow_option(heap: &JsHeap, params: &JsValue)
    ensures
        stream_request(heap, params) matches Ok(r) ==> {
            let c = prop(heap, params, "credentials"@);
            &&& c is Undefined ==> r.credentials is None
            &&& (c is Object) ==> match prop(heap, &c, "bearerToken"@) {
                JsValue::String(t) => r.credentials == Some(Credentials::Bearer(t@)),
                _ => true,
            }
            &&& (c is Object) && (prop(heap, &c, "bearerToken"@) is Undefined) ==> (prop(
                heap,
                &c,
                "username"@,
            ) matches JsValue::String(u) && prop(heap, &c, "password"@) matches JsValue::String(p)
                && r.credentials == Some(Credentials::Basic { username: u@, password: p@ }))
        },
{
}

/// The filter of a successful read of all events is the one its `filter` object
/// gives: none when absent; otherwise on stream names exactly when `filterOn` is
/// "streamName" (and on event types for "eventType"), with every prefix of the
/// `prefixes` array in order (none when absent) and the `regex` when there is one.
pub proof fn filter_follows_option(heap: &JsHeap, params: &JsValue)
    ensures
        all_request(heap, params) matches Ok(a) ==> {
            let v = prop(heap, params, "filter"@);
            &&& v is Undefined ==> a.filter is None
            &&& (v is Object) ==> (a.filter matches Some(f) && {
                let on = prop(heap, &v, "filterOn"@);
                let ps = prop(heap, &v, "prefixes"@);
                let re = prop(heap, &v, "regex"@);
                &&& (f.on == FilterOn::StreamName <==> is_text(on, "streamName"@))
                &&& (f.on == FilterOn::EventType <==> is_text(on, "eventType"@))
                &&& (ps is Undefined ==> f.prefixes.len() == 0)
                &&& (elements_of(heap, &ps) matches Some(es) ==> f.prefixes.len() == es.len()
                    && forall|i: int|
                    0 <= i < es.len() ==> (es[i] matches JsValue::String(s) && #[trigger] f.prefixes[i]
                        == s@))
                &&& (re is Undefined ==> f.regex is None)
                &&& (re matches JsValue::String(s) ==> f.regex == Some(s@))
            })
        },
{
    lemma_option_words_differ();
}

/// The client's options for a read of one stream hold what the request asks for:
/// its start (the client's default start when none is given), its credentials,
/// limit (as a `usize`; no limit is `usize::MAX`), leader requirement and link
/// resolution; and its direction, except that starting at the start reads forwards
/// and starting at the end reads backwards.
pub proof fn stream_client_options_follow_request(req: ReadStreamRequest<Seq<char>>)
    ensures
        ({
            let c = client_stream_options(req);
            &&& c.position == (match req.revision {
                Some(r) => r,
                None => Revision::Start,
            })
            &&& c.direction == (match req.revision {
                Some(Revision::Start) => Direction::Forwards,
                Some(Revision::End) => Direction::Backwards,
                _ => req.direction,
            })
            &&& c.authentication == req.credentials
            &&& c.max_count == (match req.max_count {
                Some(n) => n as usize,
                None => usize::MAX,
            })
            &&& c.requires_leader == req.requires_leader
            &&& c.resolve_link_tos == req.resolve_link_tos
        }),
{
}

/// The client's options for a read of all events hold what the request asks for:
/// its start, credentials, limit (as a `usize`; no limit is `usize::MAX`), leader
/// requirement, link resolution, and its filter (what it matches on, no limit of
/// its own, its prefixes in order and its regex); and its direction, except that
/// starting at the start of the log reads forwards and at its end backwards.
pub proof fn all_client_options_follow_request(req: ReadAllRequest<Seq<char>, Seq<Seq<char>>>)
    ensures
        ({
            let (c, filter) = client_all_options(req);
            &&& c.position == req.position
            &&& c.direction == (match req.position {
                AllPosition::Start => Direction::Forwards,
                AllPosition::End => Direction::Backwards,
                AllPosition::At(_) => req.direction,
            })
            &&& c.authentication == req.credentials
            &&& c.max_count == (match req.max_count {
                Some(n) => n as usize,
                None => usize::MAX,
            })
            &&& c.requires_leader == req.requires_leader
            &&& c.resolve_link_tos == req.resolve_link_tos
            &&& filter == (match req.filter {
                Some(f) => Some(
                    FilterContents { on: f.on, max: None, regex: f.regex, prefixes: f.prefixes },
                ),
                None => None,
            })
        }),
{
}

proof fn lemma_downcast_texts()
    ensures
        "failed to downcast any to "@ + "object"@ == "failed to downcast any to object"@,
        "failed to downcast any to "@ + "BigInt"@ == "failed to downcast any to BigInt"@,
        "failed to downcast any to "@ + "boolean"@ == "failed to downcast any to boolean"@,
{
    reveal_strlit("failed to downcast any to ");
    reveal_strlit("object");
    reveal_strlit("BigInt");
    reveal_strlit("boolean");
    reveal_strlit("failed to downcast any to object");
    reveal_strlit("failed to downcast any to BigInt");
    reveal_strlit("failed to downcast any to boolean");
    assert("failed to downcast any to "@ + "object"@ =~= "failed to downcast any to object"@);
    assert("failed to downcast any to "@ + "BigInt"@ =~= "failed to downcast any to BigInt"@);
    assert("failed to downcast any to "@ + "boolean"@ =~= "failed to downcast any to boolean"@);
}

/// The error that a read of one stream throws for a malformed option, when the
/// options read before it are absent: a start that is some other text is quoted;
/// a `BigInt` start that does not fit shows its low bits in decimal; a start of any
/// other type is refused; credentials, a limit or a flag of the wrong type give the
/// `TypeError` that names the type wanted.
pub proof fn stream_option_errors(heap: &JsHeap, params: &JsValue)
    ensures
        (prop(heap, params, "direction"@) is Undefined) ==> match prop(heap, params, "fromRevision"@) {
            JsValue::String(s) => s@ != "start"@ && s@ != "end"@ ==> stream_request(heap, params)
                == Err::<ReadStreamRequest<Seq<char>>, Thrown<Seq<char>>>(
                Thrown::Error("invalid fromRevision value: '"@ + s@ + "'"@),
            ),
            JsValue::BigInt(b) => !b.lossless ==> stream_request(heap, params) == Err::<
                ReadStreamRequest<Seq<char>>,
                Thrown<Seq<char>>,
            >(Thrown::Error("Loss of precision reading BigInt ("@ + decimal(b.value as nat) + ")"@)),
            JsValue::Undefined => true,
            _ => stream_request(heap, params) == Err::<ReadStreamRequest<Seq<char>>, Thrown<Seq<char>>>(
                Thrown::Error("fromRevision can only be 'start', 'end' or a bigint"@),
            ),
        },
        (prop(heap, params, "direction"@) is Undefined && prop(heap, params, "fromRevision"@) is Undefined) && !(prop(heap, params, "credentials"@) is Undefined) && !(prop(heap, params, "credentials"@) is Object) ==> stream_request(heap, params) == Err::<ReadStreamRequest<Seq<char>>, Thrown<Seq<char>>>(
            Thrown::TypeError("failed to downcast any to object"@),
        ),
        (prop(heap, params, "direction"@) is Undefined && prop(heap, params, "fromRevision"@) is Undefined && prop(heap, params, "credentials"@) is Undefined) && !(prop(heap, params, "maxCount"@) is Undefined) && !(prop(heap, params, "maxCount"@) is BigInt) ==> stream_request(heap, params) == Err::<ReadStreamRequest<Seq<char>>, Thrown<Seq<char>>>(
            Thrown::TypeError("failed to downcast any to BigInt"@),
        ),
        (prop(heap, params, "direction"@) is Undefined && prop(heap, params, "fromRevision"@) is Undefined && prop(heap, params, "credentials"@) is Undefined && prop(heap, params, "maxCount"@) is Undefined) && !(prop(heap, params, "requiresLeader"@) is Undefined) && !(prop(heap, params, "requiresLeader"@) is Boolean) ==> stream_request(heap, params) == Err::<ReadStreamRequest<Seq<char>>, Thrown<Seq<char>>>(
            Thrown::TypeError("failed to downcast any to boolean"@),
        ),
{
    lemma_downcast_texts();
}

/// The error that a read of all events throws for a malformed start or filter,
/// when the options read before it are absent: a start that is some other text is
/// quoted; a start of any other type than text or object is refused; a filter
/// without `filterOn` is refused.
pub proof fn all_option_errors(heap: &JsHeap, params: &JsValue)
    ensures
        (prop(heap, params, "direction"@) is Undefined) ==> match prop(heap, params, "fromPosition"@) {
            JsValue::String(s) => s@ != "start"@ && s@ != "end"@ ==> all_request(heap, params)
                == Err::<ReadAllRequest<Seq<char>, Seq<Seq<char>>>, Thrown<Seq<char>>>(
                Thrown::Error("invalid fromPosition value: '"@ + s@ + "'"@),
            ),
            JsValue::Undefined => true,
            JsValue::Object(_) => true,
            _ => all_request(heap, params) == Err::<ReadAllRequest<Seq<char>, Seq<Seq<char>>>, Thrown<Seq<char>>>(
                Thrown::Error(
                    "fromPosition can only be 'start', 'end' or an object with 'commit' and 'prepare'"@,
                ),
            ),
        },
        ({
            let f = prop(heap, params, "filter"@);
            (prop(heap, params, "direction"@) is Undefined && prop(heap, params, "fromPosition"@) is Undefined && prop(heap, params, "credentials"@) is Undefined && prop(heap, params, "maxCount"@) is Undefined && prop(heap, params, "requiresLeader"@) is Undefined && prop(heap, params, "resolvesLink"@) is Undefined) && (f is Object) && (prop(heap, &f, "filterOn"@) is Undefined) ==> all_request(heap, params) == Err::<ReadAllRequest<Seq<char>, Seq<Seq<char>>>, Thrown<Seq<char>>>(
                Thrown::Error("filter.filterOn must be 'streamName' or 'eventType'"@),
            )
        }),
{
}

/// `readStream` reads the stream named by its first argument, and `readAll` reads
/// all events: a successful `readStream` names the text of argument 0; without a
/// first argument it throws "not enough arguments", and with one that is not text
/// it throws the `TypeError` for a string.
pub proof fn read_targets_follow_arguments(args: Seq<JsValue>, heap: &JsHeap)
    ensures
        read_stream_call(args, heap) matches Ok(o) ==> match o {
            Options::Regular { stream_name, .. } => args.len() > 0 && match args[0] {
                JsValue::String(s) => s@ == stream_name,
                _ => false,
            },
            _ => false,
        },
        read_all_call(args, heap) matches Ok(o) ==> o is All,
        args.len() == 0 ==> read_stream_call(args, heap) == Err::<Options<Seq<char>, Seq<Seq<char>>>, Thrown<Seq<char>>>(
            Thrown::TypeError("not enough arguments"@),
        ),
        args.len() > 0 && !(args[0] is String) ==> read_stream_call(args, heap) == Err::<Options<Seq<char>, Seq<Seq<char>>>, Thrown<Seq<char>>>(
            Thrown::TypeError("failed to downcast any to string"@),
        ),
{
    reveal_strlit("failed to downcast any to ");
    reveal_strlit("string");
    reveal_strlit("failed to downcast any to string");
    assert("failed to downcast any to "@ + "string"@ =~= "failed to downcast any to string"@);
}

} // verus!

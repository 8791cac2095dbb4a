use vstd::prelude::*;
use vstd::string::*;

use crate::js::{
    downcast_failure, elements_of, get_elements, get_prop, get_string_argument, prop,
    string_argument, throw_downcast_failure, JsHeap, JsValue, Thrown,
};
use crate::text::{decimal, decimal_text, join3};

verus! {

/// The direction of a read.
#[derive(PartialEq, Eq, Structural, Clone, Copy, Debug)]
pub enum Direction {
    Forwards,
    Backwards,
}

/// Where a read of one stream starts: its first event, its last, or a revision.
#[derive(PartialEq, Eq, Structural, Clone, Copy, Debug)]
pub enum Revision {
    Start,
    End,
    At(u64),
}

/// A position in the log of all events.
#[derive(PartialEq, Eq, Structural, Clone, Copy, Debug)]
pub struct LogPosition {
    pub commit: u64,
    pub prepare: u64,
}

/// Where a read of all events starts: the start of the log, its end, or a position.
#[derive(PartialEq, Eq, Structural, Clone, Copy, Debug)]
pub enum AllPosition {
    Start,
    End,
    At(LogPosition),
}

/// The credentials a read is made with: a bearer token, or a login and password.
#[derive(PartialEq, Eq, Debug)]
pub enum Credentials<S = String> {
    Bearer(S),
    Basic { username: S, password: S },
}

/// What a filter of all events matches on.
#[derive(PartialEq, Eq, Structural, Clone, Copy, Debug)]
pub enum FilterOn {
    StreamName,
    EventType,
}

/// A filter of all events: what it matches on, the prefixes it accepts, its regex.
#[derive(PartialEq, Eq, Debug)]
pub struct FilterRequest<S = String, L = Vec<String>> {
    pub on: FilterOn,
    pub prefixes: L,
    pub regex: Option<S>,
}

/// The options of a read of one stream, as the caller gave them.
#[derive(PartialEq, Eq, Debug)]
pub struct ReadStreamRequest<S = String> {
    pub direction: Direction,
    pub revision: Option<Revision>,
    pub credentials: Option<Credentials<S>>,
    pub max_count: Option<u64>,
    pub requires_leader: bool,
    pub resolve_link_tos: bool,
}

/// The options of a read of all events, as the caller gave them.
#[derive(PartialEq, Eq, Debug)]
pub struct ReadAllRequest<S = String, L = Vec<String>> {
    pub direction: Direction,
    pub position: AllPosition,
    pub credentials: Option<Credentials<S>>,
    pub max_count: Option<u64>,
    pub requires_leader: bool,
    pub resolve_link_tos: bool,
    pub filter: Option<FilterRequest<S, L>>,
}

/// A read to perform: of one stream by its name, or of all events.
#[derive(PartialEq, Eq, Debug)]
pub enum Options<S = String, L = Vec<String>> {
    Regular { stream_name: S, options: ReadStreamRequest<S> },
    All(ReadAllRequest<S, L>),
}

impl View for Credentials {
    type V = Credentials<Seq<char>>;

    open spec fn view(&self) -> Credentials<Seq<char>> {
        match self {
            Credentials::Bearer(t) => Credentials::Bearer(t@),
            Credentials::Basic { username, password } => Credentials::Basic {
                username: username@,
                password: password@,
            },
        }
    }
}

pub open spec fn credentials_view(c: Option<Credentials>) -> Option<Credentials<Seq<char>>> {
    match c {
        Some(c) => Some(c@),
        None => None,
    }
}

/// The texts of a sequence of strings.
pub open spec fn texts(v: Seq<String>) -> Seq<Seq<char>> {
    v.map_values(|s: String| s@)
}

pub open spec fn regex_view(s: Option<String>) -> Option<Seq<char>> {
    match s {
        Some(s) => Some(s@),
        None => None,
    }
}

impl View for FilterRequest {
    type V = FilterRequest<Seq<char>, Seq<Seq<char>>>;

    open spec fn view(&self) -> FilterRequest<Seq<char>, Seq<Seq<char>>> {
        FilterRequest {
            on: self.on,
            prefixes: texts(self.prefixes@),
            regex: regex_view(self.regex),
        }
    }
}

pub open spec fn filter_view(f: Option<FilterRequest>) -> Option<FilterRequest<Seq<char>, Seq<Seq<char>>>> {
    match f {
        Some(f) => Some(f@),
        None => None,
    }
}

impl View for ReadStreamRequest {
    type V = ReadStreamRequest<Seq<char>>;

    open spec fn view(&self) -> ReadStreamRequest<Seq<char>> {
        ReadStreamRequest {
            direction: self.direction,
            revision: self.revision,
            credentials: credentials_view(self.credentials),
            max_count: self.max_count,
            requires_leader: self.requires_leader,
            resolve_link_tos: self.resolve_link_tos,
        }
    }
}

impl View for ReadAllRequest {
    type V = ReadAllRequest<Seq<char>, Seq<Seq<char>>>;

    open spec fn view(&self) -> ReadAllRequest<Seq<char>, Seq<Seq<char>>> {
        ReadAllRequest {
            direction: self.direction,
            position: self.position,
            credentials: credentials_view(self.credentials),
            max_count: self.max_count,
            requires_leader: self.requires_leader,
            resolve_link_tos: self.resolve_link_tos,
            filter: filter_view(self.filter),
        }
    }
}

impl View for Options {
    type V = Options<Seq<char>, Seq<Seq<char>>>;

    open spec fn view(&self) -> Options<Seq<char>, Seq<Seq<char>>> {
        match self {
            Options::Regular { stream_name, options } => Options::Regular {
                stream_name: stream_name@,
                options: options@,
            },
            Options::All(o) => Options::All(o@),
        }
    }
}

/// A result, with its value and its error taken by their views.
pub open spec fn result_view<T: View>(r: Result<T, Thrown>) -> Result<T::V, Thrown<Seq<char>>> {
    match r {
        Ok(t) => Ok(t@),
        Err(e) => Err(e@),
    }
}

/// The `Error` thrown when a `BigInt` does not fit in a `u64`; it shows the low bits read.
pub open spec fn lossy_bigint(value: u64) -> Thrown<Seq<char>> {
    Thrown::Error("Loss of precision reading BigInt ("@ + decimal(value as nat) + ")"@)
}

fn throw_lossy_bigint(value: u64) -> (r: Thrown)
    ensures
        r@ == lossy_bigint(value),
{
    let digits = decimal_text(value);
    Thrown::Error(join3("Loss of precision reading BigInt (", digits.as_str(), ")"))
}

/// The options object of a call: argument `i` when there is one and it is an
/// object; otherwise a value without properties, which reads like `{}`.
pub open spec fn params_at(args: Seq<JsValue>, i: int) -> JsValue {
    if 0 <= i < args.len() && args[i] is Object {
        args[i]
    } else {
        JsValue::Undefined
    }
}

fn get_params(args: &Vec<JsValue>, i: usize) -> (r: &JsValue)
    ensures
        *r == params_at(args@, i as int),
{
    if i < args.len() {
        match &args[i] {
            JsValue::Object(_) => &args[i],
            _ => &JsValue::Undefined,
        }
    } else {
        &JsValue::Undefined
    }
}

/// `direction`: "forwards" when absent, else "forwards" or "backwards".
pub open spec fn direction_option(heap: &JsHeap, params: &JsValue) -> Result<Direction, Thrown<Seq<char>>> {
    match prop(heap, params, "direction"@) {
        JsValue::Undefined => Ok(Direction::Forwards),
        JsValue::String(s) => if s@ == "forwards"@ {
            Ok(Direction::Forwards)
        } else if s@ == "backwards"@ {
            Ok(Direction::Backwards)
        } else {
            Err(Thrown::Error("invalid direction value: '"@ + s@ + "'"@))
        },
        _ => Err(downcast_failure("string"@)),
    }
}

fn read_direction(heap: &JsHeap, params: &JsValue) -> (r: Result<Direction, Thrown>)
    ensures
        match r {
            Ok(d) => direction_option(heap, params) == Ok::<Direction, Thrown<Seq<char>>>(d),
            Err(e) => direction_option(heap, params) == Err::<Direction, Thrown<Seq<char>>>(e@),
        },
{
    match get_prop(heap, params, "direction") {
        None => Ok(Direction::Forwards),
        Some(JsValue::Undefined) => Ok(Direction::Forwards),
        Some(JsValue::String(s)) => {
            if *s == String::from_str("forwards") {
                Ok(Direction::Forwards)
            } else if *s == String::from_str("backwards") {
                Ok(Direction::Backwards)
            } else {
                Err(Thrown::Error(join3("invalid direction value: '", s.as_str(), "'")))
            }
        },
        Some(_) => Err(throw_downcast_failure("string")),
    }
}

/// `fromRevision`: absent, "start", "end", or a `BigInt` that fits in a `u64`.
pub open spec fn revision_option(heap: &JsHeap, params: &JsValue) -> Result<Option<Revision>, Thrown<Seq<char>>> {
    match prop(heap, params, "fromRevision"@) {
        JsValue::Undefined => Ok(None),
        JsValue::String(s) => if s@ == "start"@ {
            Ok(Some(Revision::Start))
        } else if s@ == "end"@ {
            Ok(Some(Revision::End))
        } else {
            Err(Thrown::Error("invalid fromRevision value: '"@ + s@ + "'"@))
        },
        JsValue::BigInt(b) => if b.lossless {
            Ok(Some(Revision::At(b.value)))
        } else {
            Err(lossy_bigint(b.value))
        },
        _ => Err(Thrown::Error("fromRevision can only be 'start', 'end' or a bigint"@)),
    }
}

fn read_revision(heap: &JsHeap, params: &JsValue) -> (r: Result<Option<Revision>, Thrown>)
    ensures
        match r {
            Ok(x) => revision_option(heap, params) == Ok::<Option<Revision>, Thrown<Seq<char>>>(x),
            Err(e) => revision_option(heap, params) == Err::<Option<Revision>, Thrown<Seq<char>>>(e@),
        },
{
    match get_prop(heap, params, "fromRevision") {
        None => Ok(None),
        Some(JsValue::Undefined) => Ok(None),
        Some(JsValue::String(s)) => {
            if *s == String::from_str("start") {
                Ok(Some(Revision::Start))
            } else if *s == String::from_str("end") {
                Ok(Some(Revision::End))
            } else {
                Err(Thrown::Error(join3("invalid fromRevision value: '", s.as_str(), "'")))
            }
        },
        Some(JsValue::BigInt(b)) => {
            if b.lossless {
                Ok(Some(Revision::At(b.value)))
            } else {
                Err(throw_lossy_bigint(b.value))
            }
        },
        Some(_) => Err(
            Thrown::Error(String::from_str("fromRevision can only be 'start', 'end' or a bigint")),
        ),
    }
}

/// The credentials of a `credentials` object: its `bearerToken` when that is
/// defined (and then it must be a string), else its `username` and `password`
/// when both are strings.
pub open spec fn credentials_of(heap: &JsHeap, obj: &JsValue) -> Result<Credentials<Seq<char>>, Thrown<Seq<char>>> {
    let bearer = prop(heap, obj, "bearerToken"@);
    if !(bearer is Undefined) {
        match bearer {
            JsValue::String(t) => Ok(Credentials::Bearer(t@)),
            _ => Err(Thrown::TypeError("credentials.bearerToken must be a string"@)),
        }
    } else {
        match (prop(heap, obj, "username"@), prop(heap, obj, "password"@)) {
            (JsValue::String(u), JsValue::String(p)) => Ok(
                Credentials::Basic { username: u@, password: p@ },
            ),
            _ => Err(
                Thrown::TypeError(
                    "credentials must include either { bearerToken } or { username, password }"@,
                ),
            ),
        }
    }
}

/// Reads the credentials of a `credentials` object.
pub fn authentication_from_js(heap: &JsHeap, obj: &JsValue) -> (r: Result<Credentials, Thrown>)
    ensures
        result_view(r) == credentials_of(heap, obj),
{
    match get_prop(heap, obj, "bearerToken") {
        Some(JsValue::String(t)) => {
            return Ok(Credentials::Bearer(t.clone()));
        },
        Some(JsValue::Undefined) => {},
        None => {},
        Some(_) => {
            return Err(
                Thrown::TypeError(String::from_str("credentials.bearerToken must be a string")),
            );
        },
    }
    let username = get_prop(heap, obj, "username");
    let password = get_prop(heap, obj, "password");
    match (username, password) {
        (Some(JsValue::String(u)), Some(JsValue::String(p))) => Ok(
            Credentials::Basic { username: u.clone(), password: p.clone() },
        ),
        _ => Err(
            Thrown::TypeError(
                String::from_str(
                    "credentials must include either { bearerToken } or { username, password }",
                ),
            ),
        ),
    }
}

/// `credentials`: absent, or an object read by [`credentials_of`].
pub open spec fn credentials_option(heap: &JsHeap, params: &JsValue) -> Result<Option<Credentials<Seq<char>>>, Thrown<Seq<char>>> {
    let v = prop(heap, params, "credentials"@);
    match v {
        JsValue::Undefined => Ok(None),
        JsValue::Object(_) => match credentials_of(heap, &v) {
            Ok(c) => Ok(Some(c)),
            Err(e) => Err(e),
        },
        _ => Err(downcast_failure("object"@)),
    }
}

fn read_credentials(heap: &JsHeap, params: &JsValue) -> (r: Result<Option<Credentials>, Thrown>)
    ensures
        match r {
            Ok(c) => credentials_option(heap, params) == Ok::<Option<Credentials<Seq<char>>>, Thrown<Seq<char>>>(credentials_view(c)),
            Err(e) => credentials_option(heap, params) == Err::<Option<Credentials<Seq<char>>>, Thrown<Seq<char>>>(e@),
        },
{
    match get_prop(heap, params, "credentials") {
        None => Ok(None),
        Some(JsValue::Undefined) => Ok(None),
        Some(v) => match v {
            JsValue::Object(_) => match authentication_from_js(heap, v) {
                Ok(c) => Ok(Some(c)),
                Err(e) => Err(e),
            },
            _ => Err(throw_downcast_failure("object")),
        },
    }
}

/// `maxCount`: absent, or a `BigInt` that fits in a `u64`.
pub open spec fn max_count_option(heap: &JsHeap, params: &JsValue) -> Result<Option<u64>, Thrown<Seq<char>>> {
    match prop(heap, params, "maxCount"@) {
        JsValue::Undefined => Ok(None),
        JsValue::BigInt(b) => if b.lossless {
            Ok(Some(b.value))
        } else {
            Err(lossy_bigint(b.value))
        },
        _ => Err(downcast_failure("BigInt"@)),
    }
}

fn read_max_count(heap: &JsHeap, params: &JsValue) -> (r: Result<Option<u64>, Thrown>)
    ensures
        match r {
            Ok(x) => max_count_option(heap, params) == Ok::<Option<u64>, Thrown<Seq<char>>>(x),
            Err(e) => max_count_option(heap, params) == Err::<Option<u64>, Thrown<Seq<char>>>(e@),
        },
{
    match get_prop(heap, params, "maxCount") {
        None => Ok(None),
        Some(JsValue::Undefined) => Ok(None),
        Some(JsValue::BigInt(b)) => {
            if b.lossless {
                Ok(Some(b.value))
            } else {
                Err(throw_lossy_bigint(b.value))
            }
        },
        Some(_) => Err(throw_downcast_failure("BigInt")),
    }
}

/// A flag: false when absent, else a boolean.
pub open spec fn flag_option(heap: &JsHeap, params: &JsValue, key: Seq<char>) -> Result<bool, Thrown<Seq<char>>> {
    match prop(heap, params, key) {
        JsValue::Undefined => Ok(false),
        JsValue::Boolean(b) => Ok(b),
        _ => Err(downcast_failure("boolean"@)),
    }
}

fn read_flag(heap: &JsHeap, params: &JsValue, key: &str) -> (r: Result<bool, Thrown>)
    ensures
        match r {
            Ok(x) => flag_option(heap, params, key@) == Ok::<bool, Thrown<Seq<char>>>(x),
            Err(e) => flag_option(heap, params, key@) == Err::<bool, Thrown<Seq<char>>>(e@),
        },
{
    match get_prop(heap, params, key) {
        None => Ok(false),
        Some(JsValue::Undefined) => Ok(false),
        Some(JsValue::Boolean(b)) => Ok(*b),
        Some(_) => Err(throw_downcast_failure("boolean")),
    }
}

/// The options of a read of one stream, read in the order `direction`,
/// `fromRevision`, `credentials`, `maxCount`, `requiresLeader`, `resolvesLink`;
/// the first that is wrong decides what is thrown.
pub open spec fn stream_request(heap: &JsHeap, params: &JsValue) -> Result<ReadStreamRequest<Seq<char>>, Thrown<Seq<char>>> {
    match direction_option(heap, params) {
        Err(e) => Err(e),
        Ok(direction) => match revision_option(heap, params) {
            Err(e) => Err(e),
            Ok(revision) => match credentials_option(heap, params) {
                Err(e) => Err(e),
                Ok(credentials) => match max_count_option(heap, params) {
                    Err(e) => Err(e),
                    Ok(max_count) => match flag_option(heap, params, "requiresLeader"@) {
                        Err(e) => Err(e),
                        Ok(requires_leader) => match flag_option(heap, params, "resolvesLink"@) {
                            Err(e) => Err(e),
                            Ok(resolve_link_tos) => Ok(
                                ReadStreamRequest {
                                    direction,
                                    revision,
                                    credentials,
                                    max_count,
                                    requires_leader,
                                    resolve_link_tos,
                                },
                            ),
                        },
                    },
                },
            },
        },
    }
}

/// A read of one stream: the stream's name (argument 0, a string) and the
/// options object (argument 1, when it is an object).
pub open spec fn read_stream_call(args: Seq<JsValue>, heap: &JsHeap) -> Result<Options<Seq<char>, Seq<Seq<char>>>, Thrown<Seq<char>>> {
    match string_argument(args, 0) {
        Err(e) => Err(e),
        Ok(stream_name) => match stream_request(heap, &params_at(args, 1)) {
            Err(e) => Err(e),
            Ok(options) => Ok(Options::Regular { stream_name, options }),
        },
    }
}

fn read_stream_request(heap: &JsHeap, params: &JsValue) -> (r: Result<ReadStreamRequest, Thrown>)
    ensures
        result_view(r) == stream_request(heap, params),
{
    let direction = match read_direction(heap, params) {
        Ok(d) => d,
        Err(e) => return Err(e),
    };
    let revision = match read_revision(heap, params) {
        Ok(x) => x,
        Err(e) => return Err(e),
    };
    let credentials = match read_credentials(heap, params) {
        Ok(x) => x,
        Err(e) => return Err(e),
    };
    let max_count = match read_max_count(heap, params) {
        Ok(x) => x,
        Err(e) => return Err(e),
    };
    let requires_leader = match read_flag(heap, params, "requiresLeader") {
        Ok(x) => x,
        Err(e) => return Err(e),
    };
    let resolve_link_tos = match read_flag(heap, params, "resolvesLink") {
        Ok(x) => x,
        Err(e) => return Err(e),
    };
    Ok(
        ReadStreamRequest {
            direction,
            revision,
            credentials,
            max_count,
            requires_leader,
            resolve_link_tos,
        },
    )
}

/// Reads the arguments of a call that reads one stream.
pub fn read_stream(args: &Vec<JsValue>, heap: &JsHeap) -> (r: Result<Options, Thrown>)
    ensures
        result_view(r) == read_stream_call(args@, heap),
{
    let stream_name = match get_string_argument(args, 0) {
        Ok(s) => s,
        Err(e) => return Err(e),
    };
    let params = get_params(args, 1);
    match read_stream_request(heap, params) {
        Ok(options) => Ok(Options::Regular { stream_name, options }),
        Err(e) => Err(e),
    }
}

/// `fromPosition`: the start of the log when absent, else "start", "end", or an
/// object whose `commit` and `prepare` are both `BigInt`s that fit in a `u64`.
pub open spec fn position_option(heap: &JsHeap, params: &JsValue) -> Result<AllPosition, Thrown<Seq<char>>> {
    let v = prop(heap, params, "fromPosition"@);
    match v {
        JsValue::Undefined => Ok(AllPosition::Start),
        JsValue::String(s) => if s@ == "start"@ {
            Ok(AllPosition::Start)
        } else if s@ == "end"@ {
            Ok(AllPosition::End)
        } else {
            Err(Thrown::Error("invalid fromPosition value: '"@ + s@ + "'"@))
        },
        JsValue::Object(_) => match prop(heap, &v, "commit"@) {
            JsValue::BigInt(c) => match prop(heap, &v, "prepare"@) {
                JsValue::BigInt(p) => if !c.lossless {
                    Err(lossy_bigint(c.value))
                } else if !p.lossless {
                    Err(lossy_bigint(p.value))
                } else {
                    Ok(AllPosition::At(LogPosition { commit: c.value, prepare: p.value }))
                },
                _ => Err(downcast_failure("BigInt"@)),
            },
            _ => Err(downcast_failure("BigInt"@)),
        },
        _ => Err(
            Thrown::Error(
                "fromPosition can only be 'start', 'end' or an object with 'commit' and 'prepare'"@,
            ),
        ),
    }
}

fn read_position(heap: &JsHeap, params: &JsValue) -> (r: Result<AllPosition, Thrown>)
    ensures
        match r {
            Ok(x) => position_option(heap, params) == Ok::<AllPosition, Thrown<Seq<char>>>(x),
            Err(e) => position_option(heap, params) == Err::<AllPosition, Thrown<Seq<char>>>(e@),
        },
{
    let v = match get_prop(heap, params, "fromPosition") {
        None => return Ok(AllPosition::Start),
        Some(v) => v,
    };
    match v {
        JsValue::Undefined => Ok(AllPosition::Start),
        JsValue::String(s) => {
            if *s == String::from_str("start") {
                Ok(AllPosition::Start)
            } else if *s == String::from_str("end") {
                Ok(AllPosition::End)
            } else {
                Err(Thrown::Error(join3("invalid fromPosition value: '", s.as_str(), "'")))
            }
        },
        JsValue::Object(_) => {
            let commit = match get_prop(heap, v, "commit") {
                Some(JsValue::BigInt(c)) => c,
                _ => return Err(throw_downcast_failure("BigInt")),
            };
            let prepare = match get_prop(heap, v, "prepare") {
                Some(JsValue::BigInt(p)) => p,
                _ => return Err(throw_downcast_failure("BigInt")),
            };
            if !commit.lossless {
                Err(throw_lossy_bigint(commit.value))
            } else if !prepare.lossless {
                Err(throw_lossy_bigint(prepare.value))
            } else {
                Ok(AllPosition::At(LogPosition { commit: commit.value, prepare: prepare.value }))
            }
        },
        _ => Err(
            Thrown::Error(
                String::from_str(
                    "fromPosition can only be 'start', 'end' or an object with 'commit' and 'prepare'",
                ),
            ),
        ),
    }
}

/// The text of a value that is a string.
pub open spec fn string_text(v: JsValue) -> Seq<char> {
    match v {
        JsValue::String(s) => s@,
        _ => Seq::empty(),
    }
}

/// The texts of the elements of an array, when every element is a string.
pub open spec fn strings_of(es: Seq<JsValue>) -> Result<Seq<Seq<char>>, Thrown<Seq<char>>> {
    if forall|k: int| 0 <= k < es.len() ==> (#[trigger] es[k]) is String {
        Ok(es.map_values(|v: JsValue| string_text(v)))
    } else {
        Err(downcast_failure("string"@))
    }
}

/// `filter.filterOn`: "streamName" or "eventType" (absent counts as neither).
pub open spec fn filter_on_of(heap: &JsHeap, filter: &JsValue) -> Result<FilterOn, Thrown<Seq<char>>> {
    match prop(heap, filter, "filterOn"@) {
        JsValue::Undefined => Err(Thrown::Error("filter.filterOn must be 'streamName' or 'eventType'"@)),
        JsValue::String(s) => if s@ == "streamName"@ {
            Ok(FilterOn::StreamName)
        } else if s@ == "eventType"@ {
            Ok(FilterOn::EventType)
        } else {
            Err(Thrown::Error("filter.filterOn must be 'streamName' or 'eventType'"@))
        },
        _ => Err(downcast_failure("string"@)),
    }
}

/// `filter.prefixes`: none when absent, else an array of strings.
pub open spec fn prefixes_of(heap: &JsHeap, filter: &JsValue) -> Result<Seq<Seq<char>>, Thrown<Seq<char>>> {
    let p = prop(heap, filter, "prefixes"@);
    if p is Undefined {
        Ok(Seq::empty())
    } else {
        match elements_of(heap, &p) {
            Some(es) => strings_of(es),
            None => Err(downcast_failure("Array"@)),
        }
    }
}

/// `filter.regex`: absent, or a string.
pub open spec fn regex_of(heap: &JsHeap, filter: &JsValue) -> Result<Option<Seq<char>>, Thrown<Seq<char>>> {
    match prop(heap, filter, "regex"@) {
        JsValue::Undefined => Ok(None),
        JsValue::String(s) => Ok(Some(s@)),
        _ => Err(downcast_failure("string"@)),
    }
}

/// `filter`: absent, or an object read in the order `filterOn`, `prefixes`, `regex`.
pub open spec fn filter_option(heap: &JsHeap, params: &JsValue) -> Result<Option<FilterRequest<Seq<char>, Seq<Seq<char>>>>, Thrown<Seq<char>>> {
    let v = prop(heap, params, "filter"@);
    match v {
        JsValue::Undefined => Ok(None),
        JsValue::Object(_) => match filter_on_of(heap, &v) {
            Err(e) => Err(e),
            Ok(on) => match prefixes_of(heap, &v) {
                Err(e) => Err(e),
                Ok(prefixes) => match regex_of(heap, &v) {
                    Err(e) => Err(e),
                    Ok(regex) => Ok(Some(FilterRequest { on, prefixes, regex })),
                },
            },
        },
        _ => Err(downcast_failure("object"@)),
    }
}

fn read_strings(es: &Vec<JsValue>) -> (r: Result<Vec<String>, Thrown>)
    ensures
        match r {
            Ok(v) => strings_of(es@) == Ok::<Seq<Seq<char>>, Thrown<Seq<char>>>(texts(v@)),
            Err(e) => strings_of(es@) == Err::<Seq<Seq<char>>, Thrown<Seq<char>>>(e@),
        },
{
    let mut out: Vec<String> = Vec::new();
    let mut k: usize = 0;
    while k < es.len()
        invariant
            k <= es@.len(),
            out@.len() == k,
            forall|j: int| 0 <= j < k ==> (#[trigger] es@[j]) is String,
            forall|j: int| 0 <= j < k ==> (#[trigger] out@[j])@ == string_text(es@[j]),
        decreases es@.len() - k,
    {
        match &es[k] {
            JsValue::String(s) => {
                out.push(s.clone());
            },
            _ => {
                return Err(throw_downcast_failure("string"));
            },
        }
        k = k + 1;
    }
    assert(texts(out@) =~= es@.map_values(|v: JsValue| string_text(v)));
    Ok(out)
}

fn read_filter(heap: &JsHeap, params: &JsValue) -> (r: Result<Option<FilterRequest>, Thrown>)
    ensures
        match r {
            Ok(f) => filter_option(heap, params) == Ok::<Option<FilterRequest<Seq<char>, Seq<Seq<char>>>>, Thrown<Seq<char>>>(filter_view(f)),
            Err(e) => filter_option(heap, params) == Err::<Option<FilterRequest<Seq<char>, Seq<Seq<char>>>>, Thrown<Seq<char>>>(e@),
        },
{
    let v = match get_prop(heap, params, "filter") {
        None => return Ok(None),
        Some(v) => v,
    };
    match v {
        JsValue::Undefined => { return Ok(None); },
        JsValue::Object(_) => {},
        _ => { return Err(throw_downcast_failure("object")); },
    }
    let on = match get_prop(heap, v, "filterOn") {
        Some(JsValue::String(s)) => {
            if *s == String::from_str("streamName") {
                FilterOn::StreamName
            } else if *s == String::from_str("eventType") {
                FilterOn::EventType
            } else {
                return Err(
                    Thrown::Error(
                        String::from_str("filter.filterOn must be 'streamName' or 'eventType'"),
                    ),
                );
            }
        },
        Some(JsValue::Undefined) | None => {
            return Err(
                Thrown::Error(
                    String::from_str("filter.filterOn must be 'streamName' or 'eventType'"),
                ),
            );
        },
        Some(_) => {
            return Err(throw_downcast_failure("string"));
        },
    };
    let prefixes = match get_prop(heap, v, "prefixes") {
        None => {
            assert(texts(Seq::<String>::empty()) =~= Seq::<Seq<char>>::empty());
            Vec::new()
        },
        Some(JsValue::Undefined) => {
            assert(texts(Seq::<String>::empty()) =~= Seq::<Seq<char>>::empty());
            Vec::new()
        },
        Some(p) => match get_elements(heap, p) {
            Some(es) => match read_strings(es) {
                Ok(ps) => ps,
                Err(e) => return Err(e),
            },
            None => return Err(throw_downcast_failure("Array")),
        },
    };
    let regex = match get_prop(heap, v, "regex") {
        None => None,
        Some(JsValue::Undefined) => None,
        Some(JsValue::String(s)) => Some(s.clone()),
        Some(_) => return Err(throw_downcast_failure("string")),
    };
    let f = FilterRequest { on, prefixes, regex };
    assert(prefixes_of(heap, v) == Ok::<Seq<Seq<char>>, Thrown<Seq<char>>>(f@.prefixes));
    Ok(Some(f))
}

/// The options of a read of all events, read in the order `direction`,
/// `fromPosition`, `credentials`, `maxCount`, `requiresLeader`, `resolvesLink`,
/// `filter`; the first that is wrong decides what is thrown.
pub open spec fn all_request(heap: &JsHeap, params: &JsValue) -> Result<ReadAllRequest<Seq<char>, Seq<Seq<char>>>, Thrown<Seq<char>>> {
    match direction_option(heap, params) {
        Err(e) => Err(e),
        Ok(direction) => match position_option(heap, params) {
            Err(e) => Err(e),
            Ok(position) => match credentials_option(heap, params) {
                Err(e) => Err(e),
                Ok(credentials) => match max_count_option(heap, params) {
                    Err(e) => Err(e),
                    Ok(max_count) => match flag_option(heap, params, "requiresLeader"@) {
                        Err(e) => Err(e),
                        Ok(requires_leader) => match flag_option(heap, params, "resolvesLink"@) {
                            Err(e) => Err(e),
                            Ok(resolve_link_tos) => match filter_option(heap, params) {
                                Err(e) => Err(e),
                                Ok(filter) => Ok(
                                    ReadAllRequest {
                                        direction,
                                        position,
                                        credentials,
                                        max_count,
                                        requires_leader,
                                        resolve_link_tos,
                                        filter,
                                    },
                                ),
                            },
                        },
                    },
                },
            },
        },
    }
}

/// A read of all events: the options object is argument 0, when it is an object.
pub open spec fn read_all_call(args: Seq<JsValue>, heap: &JsHeap) -> Result<Options<Seq<char>, Seq<Seq<char>>>, Thrown<Seq<char>>> {
    match all_request(heap, &params_at(args, 0)) {
        Err(e) => Err(e),
        Ok(o) => Ok(Options::All(o)),
    }
}

fn read_all_request(heap: &JsHeap, params: &JsValue) -> (r: Result<ReadAllRequest, Thrown>)
    ensures
        result_view(r) == all_request(heap, params),
{
    let direction = match read_direction(heap, params) {
        Ok(d) => d,
        Err(e) => return Err(e),
    };
    let position = match read_position(heap, params) {
        Ok(x) => x,
        Err(e) => return Err(e),
    };
    let credentials = match read_credentials(heap, params) {
        Ok(x) => x,
        Err(e) => return Err(e),
    };
    let max_count = match read_max_count(heap, params) {
        Ok(x) => x,
        Err(e) => return Err(e),
    };
    let requires_leader = match read_flag(heap, params, "requiresLeader") {
        Ok(x) => x,
        Err(e) => return Err(e),
    };
    let resolve_link_tos = match read_flag(heap, params, "resolvesLink") {
        Ok(x) => x,
        Err(e) => return Err(e),
    };
    let filter = match read_filter(heap, params) {
        Ok(x) => x,
        Err(e) => return Err(e),
    };
    Ok(
        ReadAllRequest {
            direction,
            position,
            credentials,
            max_count,
            requires_leader,
            resolve_link_tos,
            filter,
        },
    )
}

/// Reads the arguments of a call that reads all events.
pub fn read_all(args: &Vec<JsValue>, heap: &JsHeap) -> (r: Result<Options, Thrown>)
    ensures
        result_view(r) == read_all_call(args@, heap),
{
    let params = get_params(args, 0);
    match read_all_request(heap, params) {
        Ok(o) => Ok(Options::All(o)),
        Err(e) => Err(e),
    }
}

} // verus!

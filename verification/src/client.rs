use vstd::prelude::*;

use kurrentdb::{
    Authentication, ClientSettings, ReadAllOptions, ReadStreamOptions, StreamPosition,
    SubscriptionFilter,
};

use crate::error::ErrorKind;
use crate::js::{get_string_argument, string_argument, JsValue, Thrown};
use crate::options::{
    credentials_view, texts, AllPosition, Credentials, Direction, FilterOn, FilterRequest, ReadAllRequest,
    ReadStreamRequest, Revision,
};

verus! {

#[verifier::external_type_specification]
#[verifier::external_body]
pub struct ExClientSettings(kurrentdb::ClientSettings);

#[verifier::external_type_specification]
#[verifier::external_body]
pub struct ExReadStreamOptions(kurrentdb::ReadStreamOptions);

#[verifier::external_type_specification]
#[verifier::external_body]
pub struct ExReadAllOptions(kurrentdb::ReadAllOptions);

#[verifier::external_type_specification]
#[verifier::external_body]
pub struct ExAuthentication(kurrentdb::Authentication);

#[verifier::external_type_specification]
#[verifier::external_body]
pub struct ExSubscriptionFilter(kurrentdb::SubscriptionFilter);

/// What `ClientSettings` makes of a connection string: the settings, or the
/// message of the settings error when the string is refused.
pub uninterp spec fn connection_string_parse(s: Seq<char>) -> Result<ClientSettings, Seq<char>>;

/// Calls `<kurrentdb::ClientSettings as FromStr>::from_str` and converts its error to
/// the error's `message()`. Claims that the result is `connection_string_parse` of
/// the text: the parse depends on the text alone.
#[verifier::external_body]
fn parse_settings(s: &str) -> (r: Result<ClientSettings, String>)
    ensures
        match r {
            Ok(x) => connection_string_parse(s@) == Ok::<ClientSettings, Seq<char>>(x),
            Err(m) => connection_string_parse(s@) == Err::<ClientSettings, Seq<char>>(m@),
        },
{
    match s.parse::<ClientSettings>() {
        Ok(settings) => Ok(settings),
        Err(e) => Err(e.message().to_string()),
    }
}

/// Reads the connection string (argument 0) and parses it into client settings;
/// a refused connection string is a parse error with the settings error's message.
pub fn create(args: &Vec<JsValue>) -> (r: Result<ClientSettings, Thrown>)
    ensures
        match string_argument(args@, 0) {
            Err(e) => r matches Err(t) && t@ == e,
            Ok(s) => match connection_string_parse(s) {
                Ok(settings) => r == Ok::<ClientSettings, Thrown>(settings),
                Err(m) => r matches Err(t) && t@ == Thrown::Client(ErrorKind::ParseError(m)),
            },
        },
{
    let conn_string = match get_string_argument(args, 0) {
        Ok(s) => s,
        Err(e) => return Err(e),
    };
    match parse_settings(conn_string.as_str()) {
        Ok(settings) => Ok(settings),
        Err(message) => Err(Thrown::Client(ErrorKind::from_settings_message(message))),
    }
}

/// What a `kurrentdb::Authentication` holds: a bearer token, or a login and a
/// password (the authentication keeps their UTF-8 bytes; here, their text).
pub uninterp spec fn authentication_contents(a: Authentication) -> Credentials<Seq<char>>;

/// Calls `kurrentdb::Authentication::bearer`: the authentication holds the token.
#[verifier::external_body]
fn bearer_authentication(token: String) -> (r: Authentication)
    ensures
        authentication_contents(r) == Credentials::Bearer(token@),
{
    Authentication::bearer(token)
}

/// Calls `kurrentdb::Authentication::basic`: the authentication holds the login and
/// the password.
#[verifier::external_body]
fn basic_authentication(login: String, password: String) -> (r: Authentication)
    ensures
        authentication_contents(r) == (Credentials::Basic { username: login@, password: password@ }),
{
    Authentication::basic(login, password)
}

/// The client's authentication for the credentials: it holds exactly them.
pub fn authentication(credentials: &Credentials) -> (r: Authentication)
    ensures
        authentication_contents(r) == credentials@,
{
    match credentials {
        Credentials::Bearer(token) => bearer_authentication(token.clone()),
        Credentials::Basic { username, password } => basic_authentication(
            username.clone(),
            password.clone(),
        ),
    }
}

/// What a subscription filter holds: what it matches on, its limit, its regex and
/// its prefixes in the order they were added.
pub struct FilterContents<S, L> {
    pub on: FilterOn,
    pub max: Option<u32>,
    pub regex: Option<S>,
    pub prefixes: L,
}

/// The contents of a subscription filter, texts taken as sequences of characters.
pub type FilterSpec = FilterContents<Seq<char>, Seq<Seq<char>>>;

/// What a `kurrentdb::SubscriptionFilter` holds.
pub uninterp spec fn filter_contents(f: SubscriptionFilter) -> FilterSpec;

/// A filter that matches on `on`, with no limit, no regex and no prefixes.
pub open spec fn empty_filter(on: FilterOn) -> FilterSpec {
    FilterContents { on, max: None, regex: None, prefixes: Seq::empty() }
}

/// The filter with a prefix appended.
pub open spec fn with_prefix(f: FilterSpec, prefix: Seq<char>) -> FilterSpec {
    FilterContents { prefixes: f.prefixes.push(prefix), ..f }
}

/// The filter with its regex set.
pub open spec fn with_regex(f: FilterSpec, regex: Seq<char>) -> FilterSpec {
    FilterContents { regex: Some(regex), ..f }
}

/// Calls `kurrentdb::SubscriptionFilter::on_stream_name`: an empty filter on stream names.
#[verifier::external_body]
fn filter_on_stream_name() -> (r: SubscriptionFilter)
    ensures
        filter_contents(r) == empty_filter(FilterOn::StreamName),
{
    SubscriptionFilter::on_stream_name()
}

/// Calls `kurrentdb::SubscriptionFilter::on_event_type`: an empty filter on event types.
#[verifier::external_body]
fn filter_on_event_type() -> (r: SubscriptionFilter)
    ensures
        filter_contents(r) == empty_filter(FilterOn::EventType),
{
    SubscriptionFilter::on_event_type()
}

/// Calls `kurrentdb::SubscriptionFilter::add_prefix`: the prefix is appended.
#[verifier::external_body]
fn filter_add_prefix(filter: SubscriptionFilter, prefix: &str) -> (r: SubscriptionFilter)
    ensures
        filter_contents(r) == with_prefix(filter_contents(filter), prefix@),
{
    filter.add_prefix(prefix)
}

/// Calls `kurrentdb::SubscriptionFilter::regex`: the regex is set.
#[verifier::external_body]
fn filter_regex(filter: SubscriptionFilter, regex: &str) -> (r: SubscriptionFilter)
    ensures
        filter_contents(r) == with_regex(filter_contents(filter), regex@),
{
    filter.regex(regex)
}

/// The contents of the client's filter for a filter request: what the request
/// matches on, no limit, its regex, and its prefixes in order.
pub open spec fn client_filter(request: FilterRequest<Seq<char>, Seq<Seq<char>>>) -> FilterSpec {
    FilterContents { on: request.on, max: None, regex: request.regex, prefixes: request.prefixes }
}

/// The client's subscription filter for a filter request: on stream names or
/// event types, each prefix added in order, then the regex.
pub fn subscription_filter(request: &FilterRequest) -> (r: SubscriptionFilter)
    ensures
        filter_contents(r) == client_filter(request@),
{
    let mut filter = match request.on {
        FilterOn::StreamName => filter_on_stream_name(),
        FilterOn::EventType => filter_on_event_type(),
    };
    let mut k: usize = 0;
    assert(texts(request.prefixes@).take(0) =~= Seq::<Seq<char>>::empty());
    while k < request.prefixes.len()
        invariant
            k <= request.prefixes@.len(),
            filter_contents(filter) == (FilterContents {
                on: request.on,
                max: None::<u32>,
                regex: None::<Seq<char>>,
                prefixes: texts(request.prefixes@).take(k as int),
            }),
        decreases request.prefixes@.len() - k,
    {
        filter = filter_add_prefix(filter, request.prefixes[k].as_str());
        assert(texts(request.prefixes@).take(k + 1) =~= texts(request.prefixes@).take(
            k as int,
        ).push(request.prefixes@[k as int]@));
        k = k + 1;
    }
    assert(texts(request.prefixes@).take(k as int) =~= texts(request.prefixes@));
    match &request.regex {
        Some(regex) => filter_regex(filter, regex.as_str()),
        None => filter,
    }
}

/// What a client read option set holds, the deadline left out (nothing here sets it,
/// so it stays unset): direction, start, link resolution, limit, authentication and
/// leader requirement, and for a read of all events its filter.
pub struct StreamOptionsContents<P, A> {
    pub direction: Direction,
    pub position: P,
    pub resolve_link_tos: bool,
    pub max_count: usize,
    pub authentication: Option<A>,
    pub requires_leader: bool,
}

/// The contents of `ReadStreamOptions`.
pub type StreamSpec = StreamOptionsContents<Revision, Credentials<Seq<char>>>;

/// What a `kurrentdb::ReadStreamOptions` holds.
pub uninterp spec fn stream_options_contents(o: ReadStreamOptions) -> StreamSpec;

/// What a `kurrentdb::ReadAllOptions` holds: the shared contents, and the filter.
pub uninterp spec fn all_options_contents(o: ReadAllOptions) -> (StreamOptionsContents<AllPosition, Credentials<Seq<char>>>, Option<FilterSpec>);

/// The default contents: forwards from the start, no link resolution, no limit
/// (`usize::MAX`), no authentication, the leader not required.
pub open spec fn default_contents<P>(start: P) -> StreamOptionsContents<P, Credentials<Seq<char>>> {
    StreamOptionsContents {
        direction: Direction::Forwards,
        position: start,
        resolve_link_tos: false,
        max_count: usize::MAX,
        authentication: None,
        requires_leader: false,
    }
}

/// The contents with a new direction.
pub open spec fn with_direction<P>(c: StreamOptionsContents<P, Credentials<Seq<char>>>, d: Direction) -> StreamOptionsContents<P, Credentials<Seq<char>>> {
    StreamOptionsContents { direction: d, ..c }
}

/// The contents with a new start for a read of one stream: starting at the start
/// also reads forwards, starting at the end also reads backwards.
pub open spec fn with_revision(c: StreamSpec, r: Revision) -> StreamSpec {
    match r {
        Revision::Start => StreamOptionsContents { position: r, direction: Direction::Forwards, ..c },
        Revision::End => StreamOptionsContents { position: r, direction: Direction::Backwards, ..c },
        Revision::At(_) => StreamOptionsContents { position: r, ..c },
    }
}

/// The contents with a new start for a read of all events: starting at the start
/// also reads forwards, starting at the end also reads backwards.
pub open spec fn with_all_position(c: StreamOptionsContents<AllPosition, Credentials<Seq<char>>>, p: AllPosition) -> StreamOptionsContents<AllPosition, Credentials<Seq<char>>> {
    match p {
        AllPosition::Start => StreamOptionsContents { position: p, direction: Direction::Forwards, ..c },
        AllPosition::End => StreamOptionsContents { position: p, direction: Direction::Backwards, ..c },
        AllPosition::At(_) => StreamOptionsContents { position: p, ..c },
    }
}

/// The contents with an authentication.
pub open spec fn with_authentication<P>(c: StreamOptionsContents<P, Credentials<Seq<char>>>, a: Credentials<Seq<char>>) -> StreamOptionsContents<P, Credentials<Seq<char>>> {
    StreamOptionsContents { authentication: Some(a), ..c }
}

/// The contents with a limit.
pub open spec fn with_max_count<P>(c: StreamOptionsContents<P, Credentials<Seq<char>>>, n: usize) -> StreamOptionsContents<P, Credentials<Seq<char>>> {
    StreamOptionsContents { max_count: n, ..c }
}

/// The contents with a leader requirement.
pub open spec fn with_requires_leader<P>(c: StreamOptionsContents<P, Credentials<Seq<char>>>, b: bool) -> StreamOptionsContents<P, Credentials<Seq<char>>> {
    StreamOptionsContents { requires_leader: b, ..c }
}

/// The contents with links resolved.
pub open spec fn with_link_resolution<P>(c: StreamOptionsContents<P, Credentials<Seq<char>>>) -> StreamOptionsContents<P, Credentials<Seq<char>>> {
    StreamOptionsContents { resolve_link_tos: true, ..c }
}

/// Calls `<kurrentdb::ReadStreamOptions as Default>::default`.
#[verifier::external_body]
fn stream_options_default() -> (r: ReadStreamOptions)
    ensures
        stream_options_contents(r) == default_contents(Revision::Start),
{
    ReadStreamOptions::default()
}

/// Calls `kurrentdb::ReadStreamOptions::forwards`.
#[verifier::external_body]
fn stream_forwards(o: ReadStreamOptions) -> (r: ReadStreamOptions)
    ensures
        stream_options_contents(r) == with_direction(stream_options_contents(o), Direction::Forwards),
{
    o.forwards()
}

/// Calls `kurrentdb::ReadStreamOptions::backwards`.
#[verifier::external_body]
fn stream_backwards(o: ReadStreamOptions) -> (r: ReadStreamOptions)
    ensures
        stream_options_contents(r) == with_direction(stream_options_contents(o), Direction::Backwards),
{
    o.backwards()
}

/// Calls `kurrentdb::ReadStreamOptions::position`, converting the revision to a
/// `StreamPosition<u64>` variant for variant.
#[verifier::external_body]
fn stream_position(o: ReadStreamOptions, revision: Revision) -> (r: ReadStreamOptions)
    ensures
        stream_options_contents(r) == with_revision(stream_options_contents(o), revision),
{
    o.position(
        match revision {
            Revision::Start => StreamPosition::Start,
            Revision::End => StreamPosition::End,
            Revision::At(n) => StreamPosition::Position(n),
        },
    )
}

/// Calls `kurrentdb::ReadStreamOptions::authenticated`.
#[verifier::external_body]
fn stream_authenticated(o: ReadStreamOptions, a: Authentication) -> (r: ReadStreamOptions)
    ensures
        stream_options_contents(r) == with_authentication(
            stream_options_contents(o),
            authentication_contents(a),
        ),
{
    o.authenticated(a)
}

/// Calls `kurrentdb::ReadStreamOptions::max_count`.
#[verifier::external_body]
fn stream_max_count(o: ReadStreamOptions, n: usize) -> (r: ReadStreamOptions)
    ensures
        stream_options_contents(r) == with_max_count(stream_options_contents(o), n),
{
    o.max_count(n)
}

/// Calls `kurrentdb::ReadStreamOptions::requires_leader`.
#[verifier::external_body]
fn stream_requires_leader(o: ReadStreamOptions, b: bool) -> (r: ReadStreamOptions)
    ensures
        stream_options_contents(r) == with_requires_leader(stream_options_contents(o), b),
{
    o.requires_leader(b)
}

/// Calls `kurrentdb::ReadStreamOptions::resolve_link_tos`.
#[verifier::external_body]
fn stream_resolve_link_tos(o: ReadStreamOptions) -> (r: ReadStreamOptions)
    ensures
        stream_options_contents(r) == with_link_resolution(stream_options_contents(o)),
{
    o.resolve_link_tos()
}

/// Calls `<kurrentdb::ReadAllOptions as Default>::default`.
#[verifier::external_body]
fn all_options_default() -> (r: ReadAllOptions)
    ensures
        all_options_contents(r) == (default_contents(AllPosition::Start), None::<FilterSpec>),
{
    ReadAllOptions::default()
}

/// Calls `kurrentdb::ReadAllOptions::forwards`.
#[verifier::external_body]
fn all_forwards(o: ReadAllOptions) -> (r: ReadAllOptions)
    ensures
        all_options_contents(r) == (
            with_direction(all_options_contents(o).0, Direction::Forwards),
            all_options_contents(o).1,
        ),
{
    o.forwards()
}

/// Calls `kurrentdb::ReadAllOptions::backwards`.
#[verifier::external_body]
fn all_backwards(o: ReadAllOptions) -> (r: ReadAllOptions)
    ensures
        all_options_contents(r) == (
            with_direction(all_options_contents(o).0, Direction::Backwards),
            all_options_contents(o).1,
        ),
{
    o.backwards()
}

/// Calls `kurrentdb::ReadAllOptions::position`, converting the position to a
/// `StreamPosition<Position>` variant for variant.
#[verifier::external_body]
fn all_position(o: ReadAllOptions, position: AllPosition) -> (r: ReadAllOptions)
    ensures
        all_options_contents(r) == (
            with_all_position(all_options_contents(o).0, position),
            all_options_contents(o).1,
        ),
{
    o.position(
        match position {
            AllPosition::Start => StreamPosition::Start,
            AllPosition::End => StreamPosition::End,
            AllPosition::At(p) => StreamPosition::Position(
                kurrentdb::Position { commit: p.commit, prepare: p.prepare },
            ),
        },
    )
}

/// Calls `kurrentdb::ReadAllOptions::authenticated`.
#[verifier::external_body]
fn all_authenticated(o: ReadAllOptions, a: Authentication) -> (r: ReadAllOptions)
    ensures
        all_options_contents(r) == (
            with_authentication(all_options_contents(o).0, authentication_contents(a)),
            all_options_contents(o).1,
        ),
{
    o.authenticated(a)
}

/// Calls `kurrentdb::ReadAllOptions::max_count`.
#[verifier::external_body]
fn all_max_count(o: ReadAllOptions, n: usize) -> (r: ReadAllOptions)
    ensures
        all_options_contents(r) == (
            with_max_count(all_options_contents(o).0, n),
            all_options_contents(o).1,
        ),
{
    o.max_count(n)
}

/// Calls `kurrentdb::ReadAllOptions::requires_leader`.
#[verifier::external_body]
fn all_requires_leader(o: ReadAllOptions, b: bool) -> (r: ReadAllOptions)
    ensures
        all_options_contents(r) == (
            with_requires_leader(all_options_contents(o).0, b),
            all_options_contents(o).1,
        ),
{
    o.requires_leader(b)
}

/// Calls `kurrentdb::ReadAllOptions::resolve_link_tos`.
#[verifier::external_body]
fn all_resolve_link_tos(o: ReadAllOptions) -> (r: ReadAllOptions)
    ensures
        all_options_contents(r) == (
            with_link_resolution(all_options_contents(o).0),
            all_options_contents(o).1,
        ),
{
    o.resolve_link_tos()
}

/// Calls `kurrentdb::ReadAllOptions::filter`.
#[verifier::external_body]
fn all_filter(o: ReadAllOptions, f: SubscriptionFilter) -> (r: ReadAllOptions)
    ensures
        all_options_contents(r) == (all_options_contents(o).0, Some(filter_contents(f))),
{
    o.filter(f)
}

/// The contents of the client's options for a read of one stream: from the
/// defaults, the direction, then the start (which may set the direction again),
/// the credentials, the limit (as a `usize`), the leader requirement, and link
/// resolution when asked for.
pub open spec fn client_stream_options(req: ReadStreamRequest<Seq<char>>) -> StreamSpec {
    let c1 = with_direction(default_contents(Revision::Start), req.direction);
    let c2 = match req.revision {
        Some(r) => with_revision(c1, r),
        None => c1,
    };
    let c3 = match req.credentials {
        Some(a) => with_authentication(c2, a),
        None => c2,
    };
    let c4 = match req.max_count {
        Some(n) => with_max_count(c3, n as usize),
        None => c3,
    };
    let c5 = with_requires_leader(c4, req.requires_leader);
    if req.resolve_link_tos {
        with_link_resolution(c5)
    } else {
        c5
    }
}

/// The contents of the client's options for a read of all events: from the
/// defaults, the direction, then the start (which may set the direction again),
/// the credentials, the limit (as a `usize`), the leader requirement, link
/// resolution when asked for, and the filter.
pub open spec fn client_all_options(req: ReadAllRequest<Seq<char>, Seq<Seq<char>>>) -> (StreamOptionsContents<AllPosition, Credentials<Seq<char>>>, Option<FilterSpec>) {
    let c1 = with_direction(default_contents(AllPosition::Start), req.direction);
    let c2 = with_all_position(c1, req.position);
    let c3 = match req.credentials {
        Some(a) => with_authentication(c2, a),
        None => c2,
    };
    let c4 = match req.max_count {
        Some(n) => with_max_count(c3, n as usize),
        None => c3,
    };
    let c5 = with_requires_leader(c4, req.requires_leader);
    let c6 = if req.resolve_link_tos {
        with_link_resolution(c5)
    } else {
        c5
    };
    (
        c6,
        match req.filter {
            Some(f) => Some(client_filter(f)),
            None => None,
        },
    )
}

impl ReadStreamRequest {
    /// The client's options for this read, built from the defaults in the order
    /// direction, start, credentials, limit, leader requirement, link resolution.
    /// The limit is taken as a `usize` (wrapped where that is narrower than 64 bits).
    pub fn to_client_options(&self) -> (r: ReadStreamOptions)
        ensures
            stream_options_contents(r) == client_stream_options(self@),
            stream_options_contents(r).max_count == (match self.max_count {
                Some(n) => n as usize,
                None => usize::MAX,
            }),
            stream_options_contents(r).authentication == credentials_view(self.credentials),
            stream_options_contents(r).requires_leader == self.requires_leader,
            stream_options_contents(r).resolve_link_tos == self.resolve_link_tos,
    {
        proof {
            crate::laws::stream_client_options_follow_request(self@);
        }
        let mut o = stream_options_default();
        o = match self.direction {
            Direction::Forwards => stream_forwards(o),
            Direction::Backwards => stream_backwards(o),
        };
        if let Some(revision) = self.revision {
            o = stream_position(o, revision);
        }
        if let Some(credentials) = &self.credentials {
            o = stream_authenticated(o, authentication(credentials));
        }
        if let Some(n) = self.max_count {
            o = stream_max_count(o, n as usize);
        }
        o = stream_requires_leader(o, self.requires_leader);
        if self.resolve_link_tos {
            o = stream_resolve_link_tos(o);
        }
        o
    }
}

impl ReadAllRequest {
    /// The client's options for this read, built from the defaults in the order
    /// direction, start, credentials, limit, leader requirement, link resolution,
    /// filter. The limit is taken as a `usize` (wrapped where that is narrower than
    /// 64 bits).
    pub fn to_client_options(&self) -> (r: ReadAllOptions)
        ensures
            all_options_contents(r) == client_all_options(self@),
            all_options_contents(r).0.position == self.position,
            all_options_contents(r).0.max_count == (match self.max_count {
                Some(n) => n as usize,
                None => usize::MAX,
            }),
            all_options_contents(r).1 == (match self@.filter {
                Some(f) => Some(
                    FilterContents { on: f.on, max: None, regex: f.regex, prefixes: f.prefixes },
                ),
                None => None,
            }),
    {
        proof {
            crate::laws::all_client_options_follow_request(self@);
        }
        let mut o = all_options_default();
        o = match self.direction {
            Direction::Forwards => all_forwards(o),
            Direction::Backwards => all_backwards(o),
        };
        o = all_position(o, self.position);
        if let Some(credentials) = &self.credentials {
            o = all_authenticated(o, authentication(credentials));
        }
        if let Some(n) = self.max_count {
            o = all_max_count(o, n as usize);
        }
        o = all_requires_leader(o, self.requires_leader);
        if self.resolve_link_tos {
            o = all_resolve_link_tos(o);
        }
        if let Some(filter) = &self.filter {
            o = all_filter(o, subscription_filter(filter));
        }
        o
    }
}

} // verus!

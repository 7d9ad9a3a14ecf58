//! A request to the API, with its authentication, as a sequence of decisions.
//!
//! An `Exchange` says what is to be done next, is told how it went, and answers with the next
//! step, until the request has succeeded or failed. It does no I/O itself.

use crate::client::{endpoint, Client, ClientView};
use crate::config::{RequestOptions, CR_HEADER_PREFIX};
use crate::error::{code_number, is_credential_number, ApiError, ErrorCode};
use crate::json::{
    fields, find, find_value, json_of, json_text_fields, member_view, parse_text, value_of, Fields,
    JsonField, JsonMember,
};
use crate::jwt::token_verdict;
use crate::text::{concat2, Text};
use crate::time::{is_clock_time, read_clock, read_off_clock, Timestamp};
use crate::tokens::{decision, installed_as_stated, Token, TokenDecision};
use vstd::prelude::*;

verus! {

/// The headers of a request: names and values, in order.
pub type Headers = Seq<(Text, Text)>;

/// A request that is ready to be sent.
#[derive(Debug)]
pub struct RequestPlan<T, H> {
    pub method: T,
    pub url: T,
    pub headers: H,
    /// Whether the body of the request is sent with it.
    pub with_body: bool,
}

/// The reply to a request for new tokens.
#[derive(Debug)]
pub struct RefreshReply<T> {
    pub code: i32,
    pub message: T,
    /// The reply says that the access token has expired.
    pub token_expired: bool,
    pub token: Option<Token<T>>,
}

/// What happened.
#[derive(Debug)]
pub enum Event<T> {
    /// The request is to be made.
    Start,
    /// New tokens were asked for, and this was the reply.
    Refreshed(RefreshReply<T>),
    /// New tokens were asked for in vain.
    RefreshFailed,
    /// The request was sent, and this text was the reply.
    Reply(T),
    /// The request could not be sent, or its reply could not be received.
    SendFailed,
    /// The reply has the expected form, with this code and message; it may say that the access
    /// token has expired.
    Parsed { code: i32, message: T, token_expired: bool },
    /// The reply does not have the expected form.
    ParseFailed,
    /// The callback has returned.
    Notified,
}

/// What is to be done next.
#[derive(Debug)]
pub enum Action<T, H> {
    /// Ask for new tokens at `url`.
    PostRefresh { url: T, refresh_token: T },
    /// Send the request.
    Send(RequestPlan<T, H>),
    /// Read the reply in the form that is expected of it.
    Parse,
    /// Call the callback for refreshed credentials with these tokens.
    NotifyRefreshed(Token<T>),
    /// Call the callback for invalid credentials.
    NotifyInvalid,
    /// Nothing: the request has succeeded or failed.
    Finish(Result<(), ApiError<T>>),
}

/// What follows once the callback for invalid credentials has returned.
#[derive(Debug)]
pub enum Verdict<T> {
    /// The request fails: there are no tokens.
    NoTokens,
    /// The request fails: the refresh token has expired.
    RefreshExpired,
    /// The request fails: the server says that the access token has expired.
    AccessExpired,
    /// The request fails: the server refused it with this code and message.
    Refused { code: i32, message: T },
    /// New tokens are asked for, and the request is made once more.
    Retry,
}

impl View for Verdict<String> {
    type V = Verdict<Text>;

    open spec fn view(&self) -> Verdict<Text> {
        match *self {
            Verdict::NoTokens => Verdict::NoTokens,
            Verdict::RefreshExpired => Verdict::RefreshExpired,
            Verdict::AccessExpired => Verdict::AccessExpired,
            Verdict::Refused { code, message } => Verdict::Refused { code, message: message@ },
            Verdict::Retry => Verdict::Retry,
        }
    }
}

impl Verdict<String> {
    /// A copy of the verdict.
    pub fn duplicate(&self) -> (verdict: Self)
        ensures
            verdict@ == self@,
    {
        match self {
            Verdict::NoTokens => Verdict::NoTokens,
            Verdict::RefreshExpired => Verdict::RefreshExpired,
            Verdict::AccessExpired => Verdict::AccessExpired,
            Verdict::Refused { code, message } => Verdict::Refused {
                code: *code,
                message: message.clone(),
            },
            Verdict::Retry => Verdict::Retry,
        }
    }
}

/// What an exchange waits for. `second` marks the second attempt.
#[derive(Debug)]
pub enum Phase<T> {
    /// Nothing was done yet.
    Ready,
    /// New tokens were asked for, in an attempt or, where `retrying`, before the second one.
    Refreshing { second: bool, retrying: bool },
    /// The callback for refreshed credentials is running; `access_token` has just been refreshed.
    TellingRefreshed { second: bool, retrying: bool, access_token: T },
    /// The callback for invalid credentials is running.
    TellingInvalid(Verdict<T>),
    /// The request was sent.
    Sent { second: bool },
    /// The reply is being read.
    Reading { second: bool },
    /// The request has succeeded or failed.
    Done,
}

impl View for Phase<String> {
    type V = Phase<Text>;

    open spec fn view(&self) -> Phase<Text> {
        match *self {
            Phase::Ready => Phase::Ready,
            Phase::Refreshing { second, retrying } => Phase::Refreshing { second, retrying },
            Phase::TellingRefreshed { second, retrying, access_token } => Phase::TellingRefreshed {
                second,
                retrying,
                access_token: access_token@,
            },
            Phase::TellingInvalid(verdict) => Phase::TellingInvalid(verdict@),
            Phase::Sent { second } => Phase::Sent { second },
            Phase::Reading { second } => Phase::Reading { second },
            Phase::Done => Phase::Done,
        }
    }
}

/// An exchange as its contracts see it.
#[verifier::ext_equal]
pub struct ExchangeView {
    pub path: Text,
    pub method: Text,
    pub with_body: bool,
    pub options: RequestOptions,
    pub phase: Phase<Text>,
}

/// Two readings of the clock: by the first the refresh token is judged, by the second the access
/// token.
#[derive(Debug, Clone, Copy, PartialEq, Eq, Structural)]
pub struct Readings {
    pub refresh_now: Timestamp,
    pub access_now: Timestamp,
}

/// A request that was not made yet.
pub open spec fn ready(
    path: Text,
    method: Text,
    with_body: bool,
    options: RequestOptions,
) -> ExchangeView {
    ExchangeView { path, method, with_body, options, phase: Phase::Ready }
}

/// The headers that a list of names and values stands for.
pub open spec fn headers_view(list: Seq<(String, String)>) -> Headers {
    Seq::new(list.len(), |i: int| (list[i].0@, list[i].1@))
}

impl View for RequestPlan<String, Vec<(String, String)>> {
    type V = RequestPlan<Text, Headers>;

    open spec fn view(&self) -> RequestPlan<Text, Headers> {
        RequestPlan {
            method: self.method@,
            url: self.url@,
            headers: headers_view(self.headers@),
            with_body: self.with_body,
        }
    }
}

impl View for RefreshReply<String> {
    type V = RefreshReply<Text>;

    open spec fn view(&self) -> RefreshReply<Text> {
        RefreshReply {
            code: self.code,
            message: self.message@,
            token_expired: self.token_expired,
            token: token_view(self.token),
        }
    }
}

/// The tokens in an option.
pub open spec fn token_view(token: Option<Token<String>>) -> Option<Token<Text>> {
    match token {
        Some(t) => Some(t@),
        None => None,
    }
}

impl View for Event<String> {
    type V = Event<Text>;

    open spec fn view(&self) -> Event<Text> {
        match *self {
            Event::Start => Event::Start,
            Event::Refreshed(reply) => Event::Refreshed(reply@),
            Event::RefreshFailed => Event::RefreshFailed,
            Event::Reply(text) => Event::Reply(text@),
            Event::SendFailed => Event::SendFailed,
            Event::Parsed { code, message, token_expired } => Event::Parsed {
                code,
                message: message@,
                token_expired,
            },
            Event::ParseFailed => Event::ParseFailed,
            Event::Notified => Event::Notified,
        }
    }
}

impl View for Action<String, Vec<(String, String)>> {
    type V = Action<Text, Headers>;

    open spec fn view(&self) -> Action<Text, Headers> {
        match *self {
            Action::PostRefresh { url, refresh_token } => Action::PostRefresh {
                url: url@,
                refresh_token: refresh_token@,
            },
            Action::Send(plan) => Action::Send(plan@),
            Action::Parse => Action::Parse,
            Action::NotifyRefreshed(token) => Action::NotifyRefreshed(token@),
            Action::NotifyInvalid => Action::NotifyInvalid,
            Action::Finish(Ok(())) => Action::Finish(Ok(())),
            Action::Finish(Err(error)) => Action::Finish(Err(error@)),
        }
    }
}

/// The header that carries an access token.
pub open spec fn bearer(token: Text) -> (Text, Text) {
    ("Authorization"@, "Bearer "@ + token)
}

/// The request of an exchange, authenticated with a token where there is one. The client ID is
/// sent where it is set, the purchase ticket where it is set and asked for.
pub open spec fn plan<R, I>(
    x: ExchangeView,
    c: ClientView<R, I>,
    token: Option<Text>,
) -> RequestPlan<Text, Headers> {
    let auth: Headers = match token {
        Some(token) => seq![bearer(token)],
        None => Seq::empty(),
    };
    let id: Headers = if c.config.client_id.len() > 0 {
        seq![(CR_HEADER_PREFIX@ + "Client-Id"@, c.config.client_id)]
    } else {
        Seq::empty()
    };
    let ticket: Headers = match c.purchase_ticket {
        Some(ticket) => if x.options.with_purchase_ticket {
            seq![(CR_HEADER_PREFIX@ + "Purchase-Ticket"@, ticket)]
        } else {
            Seq::empty()
        },
        None => Seq::empty(),
    };
    RequestPlan {
        method: x.method,
        url: endpoint(c.config, x.path),
        headers: auth + id + ticket,
        with_body: x.with_body,
    }
}

/// Asking for new tokens.
pub open spec fn refresh_with<R, I>(c: ClientView<R, I>, refresh_token: Text) -> Action<
    Text,
    Headers,
> {
    Action::PostRefresh { url: endpoint(c.config, "/session/token/refresh"@), refresh_token }
}

/// The exchange goes on to a phase, with an action.
pub open spec fn proceed(x: ExchangeView, phase: Phase<Text>, action: Action<Text, Headers>) -> (
    ExchangeView,
    Action<Text, Headers>,
) {
    (ExchangeView { phase, ..x }, action)
}

/// The exchange ends.
pub open spec fn finish(x: ExchangeView, res: Result<(), ApiError<Text>>) -> (
    ExchangeView,
    Action<Text, Headers>,
) {
    proceed(x, Phase::Done, Action::Finish(res))
}

/// What a verdict leads to: the exchange fails, or, where the request is to be made once more, new
/// tokens are asked for with the refresh token that the client then holds.
pub open spec fn concluded<R, I>(x: ExchangeView, c: ClientView<R, I>, verdict: Verdict<Text>) -> (
    ExchangeView,
    Action<Text, Headers>,
) {
    match verdict {
        Verdict::NoTokens => finish(x, Err(ApiError::NoTokensAvailable)),
        Verdict::RefreshExpired => finish(x, Err(ApiError::RefreshTokenExpired)),
        Verdict::AccessExpired => finish(x, Err(ApiError::AccessTokenExpired)),
        Verdict::Refused { code, message } => finish(x, Err(ApiError::Response { code, message })),
        Verdict::Retry => match c.tokens.refresh_token {
            Some(token) => proceed(
                x,
                Phase::Refreshing { second: false, retrying: true },
                refresh_with(c, token),
            ),
            None => finish(x, Err(ApiError::NoTokensAvailable)),
        },
    }
}

/// A verdict is reached. The callback for invalid credentials is called first, where it is set
/// and `told`; what the verdict leads to is decided once it has returned.
pub open spec fn judged<R, I>(
    x: ExchangeView,
    c: ClientView<R, I>,
    told: bool,
    verdict: Verdict<Text>,
) -> (ExchangeView, Action<Text, Headers>) {
    if told && c.on_credential_invalid is Some {
        proceed(x, Phase::TellingInvalid(verdict), Action::NotifyInvalid)
    } else {
        concluded(x, c, verdict)
    }
}

/// An attempt begins: the request is sent, with the access token unless the options leave it
/// out; where that has expired, new tokens are asked for; and where there is no way to
/// authenticate, the exchange fails.
pub open spec fn attempt<R, I>(
    x: ExchangeView,
    c: ClientView<R, I>,
    second: bool,
    clock: Readings,
) -> (ExchangeView, Action<Text, Headers>) {
    if x.options.no_credential {
        proceed(x, Phase::Sent { second }, Action::Send(plan(x, c, None)))
    } else {
        match decision(c.tokens, clock.refresh_now, clock.access_now) {
            TokenDecision::NoTokens => judged(x, c, true, Verdict::NoTokens),
            TokenDecision::RefreshExpired => judged(x, c, true, Verdict::RefreshExpired),
            TokenDecision::Use(token) => proceed(
                x,
                Phase::Sent { second },
                Action::Send(plan(x, c, Some(token))),
            ),
            TokenDecision::Refresh(token) => proceed(
                x,
                Phase::Refreshing { second, retrying: false },
                refresh_with(c, token),
            ),
        }
    }
}

/// What a reply other than success comes to. Where it says that the access token has expired, and
/// the request may be made once more, it is; otherwise the exchange fails.
pub open spec fn verdict_of(
    code: i32,
    message: Text,
    token_expired: bool,
    may_retry: bool,
) -> Verdict<Text> {
    if token_expired && may_retry {
        Verdict::Retry
    } else if token_expired {
        Verdict::AccessExpired
    } else {
        Verdict::Refused { code, message }
    }
}

/// A reply other than success. The callback for invalid credentials is called if the code is
/// about them.
pub open spec fn refused<R, I>(
    x: ExchangeView,
    c: ClientView<R, I>,
    code: i32,
    message: Text,
    token_expired: bool,
    may_retry: bool,
) -> (ExchangeView, Action<Text, Headers>) {
    judged(x, c, is_credential_number(code), verdict_of(code, message, token_expired, may_retry))
}

/// The client once new tokens are accepted.
pub open spec fn renewed<R, I>(c: ClientView<R, I>, token: Token<Text>) -> ClientView<R, I> {
    ClientView { tokens: installed_as_stated(c.tokens, token), ..c }
}

/// New tokens are there, and whoever asked to be told of them has been: the request is sent with
/// the new access token, or, where the tokens were asked for in order to try again, the second
/// attempt begins.
pub open spec fn resumed<R, I>(
    x: ExchangeView,
    c: ClientView<R, I>,
    access_token: Text,
    second: bool,
    retrying: bool,
    clock: Readings,
) -> (ExchangeView, Action<Text, Headers>) {
    if retrying {
        attempt(x, c, true, clock)
    } else {
        proceed(x, Phase::Sent { second }, Action::Send(plan(x, c, Some(access_token))))
    }
}

/// New tokens are accepted: the callback for refreshed credentials is called first, where it is
/// set, and the exchange resumes once it has returned. `c` is the client that holds the new
/// tokens.
pub open spec fn accepted<R, I>(
    x: ExchangeView,
    c: ClientView<R, I>,
    token: Token<Text>,
    second: bool,
    retrying: bool,
    clock: Readings,
) -> (ExchangeView, Action<Text, Headers>) {
    if c.on_credential_refreshed is Some {
        proceed(
            x,
            Phase::TellingRefreshed { second, retrying, access_token: token.access_token },
            Action::NotifyRefreshed(token),
        )
    } else {
        resumed(x, c, token.access_token, second, retrying, clock)
    }
}

/// The reply to a request for new tokens.
pub open spec fn refreshed<R, I>(
    x: ExchangeView,
    c: ClientView<R, I>,
    reply: RefreshReply<Text>,
    second: bool,
    retrying: bool,
    clock: Readings,
) -> (ExchangeView, ClientView<R, I>, Action<Text, Headers>) {
    if reply.code != code_number(ErrorCode::Success) {
        let (after, action) = refused(
            x,
            c,
            reply.code,
            reply.message,
            reply.token_expired,
            !retrying && !second,
        );
        (after, c, action)
    } else {
        match reply.token {
            None => {
                let (after, action) = finish(x, Err(ApiError::Other("No token in response"@)));
                (after, c, action)
            },
            Some(token) => match token_verdict(token.access_token) {
                Err(text) => {
                    let (after, action) = finish(x, Err(ApiError::InvalidToken(text)));
                    (after, c, action)
                },
                Ok(()) => {
                    let held = renewed(c, token);
                    let (after, action) = accepted(x, held, token, second, retrying, clock);
                    (after, held, action)
                },
            },
        }
    }
}

/// The `i32` with the low 32 bits of `n`.
pub open spec fn low_bits(n: i64) -> i32 {
    let low = n as int % 0x1_0000_0000;
    if low < 0x8000_0000 {
        low as i32
    } else {
        (low - 0x1_0000_0000) as i32
    }
}

/// The code that the `code` member of a reply states: none is success.
pub open spec fn stated_code(member: Option<JsonMember<Text>>) -> i32 {
    match member {
        Some(JsonMember::Number(Some(n))) => low_bits(n),
        _ => 0,
    }
}

/// The message that the `msg` member of a reply states, or none.
pub open spec fn stated_message(member: Option<JsonMember<Text>>) -> Text {
    match member {
        Some(JsonMember::Text(text)) => text,
        _ => Seq::empty(),
    }
}

/// What the members of a reply are found to be before it is read in the expected form: a lock
/// conflict, with its message and its data, unless that is to be handled like any other refusal;
/// or nothing yet.
pub open spec fn fields_fault(fields: Fields, skip_lock_conflict: bool) -> Option<ApiError<Text>> {
    if !skip_lock_conflict && stated_code(value_of(fields, "code"@)) == code_number(
        ErrorCode::LockConflict,
    ) {
        Some(
            ApiError::LockConflict {
                message: stated_message(value_of(fields, "msg"@)),
                detail: json_of(fields, "data"@),
            },
        )
    } else {
        None
    }
}

/// What a reply text is found to be before it is read in the expected form: no JSON at all, or
/// what its members are found to be.
pub open spec fn text_fault(text: Text, skip_lock_conflict: bool) -> Option<ApiError<Text>> {
    match json_text_fields(text) {
        Err(words) => Some(ApiError::Json(words)),
        Ok(fields) => fields_fault(fields, skip_lock_conflict),
    }
}

/// What a request that succeeded gives back: the data of the reply, or the default where the reply
/// has none, which is no error.
pub fn reply_data<D>(data: Option<D>, default: D) -> (res: D)
    ensures
        res == match data {
            Some(data) => data,
            None => default,
        },
{
    match data {
        Some(data) => data,
        None => default,
    }
}

/// The states and the action that follow an event, or nothing where the event is not what the
/// exchange waits for.
pub open spec fn next<R, I>(
    x: ExchangeView,
    c: ClientView<R, I>,
    e: Event<Text>,
    clock: Readings,
) -> Option<(ExchangeView, ClientView<R, I>, Action<Text, Headers>)> {
    match (x.phase, e) {
        (Phase::Ready, Event::Start) => {
            let (after, action) = attempt(x, c, false, clock);
            Some((after, c, action))
        },
        (Phase::Refreshing { second, retrying }, Event::Refreshed(reply)) => Some(
            refreshed(x, c, reply, second, retrying, clock),
        ),
        (Phase::Refreshing { .. }, Event::RefreshFailed) => {
            let (after, action) = finish(x, Err(ApiError::Transport));
            Some((after, c, action))
        },
        (Phase::TellingRefreshed { second, retrying, access_token }, Event::Notified) => {
            let (after, action) = resumed(x, c, access_token, second, retrying, clock);
            Some((after, c, action))
        },
        (Phase::TellingInvalid(verdict), Event::Notified) => {
            let (after, action) = concluded(x, c, verdict);
            Some((after, c, action))
        },
        (Phase::Sent { second }, Event::Reply(text)) => {
            let (after, action) = match text_fault(text, x.options.skip_lock_conflict) {
                Some(error) => finish(x, Err(error)),
                None => proceed(x, Phase::Reading { second }, Action::Parse),
            };
            Some((after, c, action))
        },
        (Phase::Sent { .. }, Event::SendFailed) => {
            let (after, action) = finish(x, Err(ApiError::Transport));
            Some((after, c, action))
        },
        (Phase::Reading { second }, Event::Parsed { code, message, token_expired }) => {
            let (after, action) = if code == code_number(ErrorCode::Success) {
                finish(x, Ok(()))
            } else {
                refused(x, c, code, message, token_expired, !second)
            };
            Some((after, c, action))
        },
        (Phase::Reading { .. }, Event::ParseFailed) => {
            let (after, action) = finish(x, Err(ApiError::Malformed));
            Some((after, c, action))
        },
        _ => None,
    }
}

/// Whether `x` and `c` with `action` are what follows an event in the states `x0` and `c0`: what
/// `next` says, or nothing and no change.
pub open spec fn followed<R, I>(
    x0: ExchangeView,
    c0: ClientView<R, I>,
    e: Event<Text>,
    clock: Readings,
    x: ExchangeView,
    c: ClientView<R, I>,
    action: Option<Action<String, Vec<(String, String)>>>,
) -> bool {
    match next(x0, c0, e, clock) {
        Some((exchange, client, next_action)) => {
            &&& x == exchange
            &&& c == client
            &&& action matches Some(a)
            &&& a@ == next_action
        },
        None => x == x0 && c == c0 && action is None,
    }
}

/// Whether `x` and `c` with `action` are what follows an event at readings of the machine's
/// clock.
pub open spec fn followed_by_clock<R, I>(
    x0: ExchangeView,
    c0: ClientView<R, I>,
    e: Event<Text>,
    x: ExchangeView,
    c: ClientView<R, I>,
    action: Option<Action<String, Vec<(String, String)>>>,
) -> bool {
    exists|clock: Readings|
        read_off_clock(clock.refresh_now) && read_off_clock(clock.access_now) && is_clock_time(
            clock.refresh_now,
        ) && is_clock_time(clock.access_now) && #[trigger] followed(x0, c0, e, clock, x, c, action)
}

/// The code that the `code` member of a reply states.
pub fn code_of(member: Option<&JsonMember<String>>) -> (code: i32)
    ensures
        code == stated_code(member_view(member)),
{
    match member {
        Some(JsonMember::Number(Some(n))) => {
            let n: i64 = *n;
            let m: i128 = 0x1_0000_0000;
            let rest: i128 = (n as i128) % m;
            let low: i128 = if rest < 0 {
                rest + m
            } else {
                rest
            };
            assert(low == n as int % 0x1_0000_0000) by {
                lemma_remainder(n as int, rest as int);
            }
            if low < 0x8000_0000 {
                low as i32
            } else {
                (low - m) as i32
            }
        },
        _ => 0,
    }
}

/// The message that the `msg` member of a reply states.
pub fn message_of(member: Option<&JsonMember<String>>) -> (message: String)
    ensures
        message@ == stated_message(member_view(member)),
{
    match member {
        Some(JsonMember::Text(text)) => text.clone(),
        _ => String::new(),
    }
}

/// Finds out whether the members of a reply are those of a lock conflict, unless that is to be
/// handled like any other refusal.
pub fn check_fields(reply: &Vec<(String, JsonField<String>)>, skip_lock_conflict: bool) -> (fault:
    Option<ApiError<String>>)
    ensures
        match fault {
            Some(error) => fields_fault(fields(reply@), skip_lock_conflict) == Some(error@),
            None => fields_fault(fields(reply@), skip_lock_conflict) is None,
        },
{
    if !skip_lock_conflict && code_of(find_value(reply, "code"))
        == ErrorCode::LockConflict.number() {
        let message = message_of(find_value(reply, "msg"));
        let detail = match find(reply, "data") {
            Some(data) => Some(data.json.clone()),
            None => None,
        };
        Some(ApiError::LockConflict { message, detail })
    } else {
        None
    }
}

/// Finds out whether a reply text is no JSON at all, or a lock conflict, unless that is to be
/// handled like any other refusal.
pub fn check_text(text: &str, skip_lock_conflict: bool) -> (fault: Option<ApiError<String>>)
    ensures
        match fault {
            Some(error) => text_fault(text@, skip_lock_conflict) == Some(error@),
            None => text_fault(text@, skip_lock_conflict) is None,
        },
{
    match parse_text(text) {
        Err(words) => Some(ApiError::Json(words)),
        Ok(reply) => check_fields(&reply, skip_lock_conflict),
    }
}

/// A request to the API, from its authentication to its reply.
pub struct Exchange {
    path: String,
    method: String,
    with_body: bool,
    options: RequestOptions,
    phase: Phase<String>,
}

impl View for Exchange {
    type V = ExchangeView;

    closed spec fn view(&self) -> ExchangeView {
        ExchangeView {
            path: self.path@,
            method: self.method@,
            with_body: self.with_body,
            options: self.options,
            phase: self.phase@,
        }
    }
}

impl Exchange {
    /// A request that was not made yet.
    pub fn new(path: &str, method: &str, with_body: bool, options: RequestOptions) -> (exchange:
        Self)
        ensures
            exchange@ == ready(path@, method@, with_body, options),
    {
        Exchange {
            path: path.to_owned(),
            method: method.to_owned(),
            with_body,
            options,
            phase: Phase::Ready,
        }
    }

    /// A GET request.
    pub fn get(path: &str, options: RequestOptions) -> (exchange: Self)
        ensures
            exchange@ == ready(path@, "GET"@, false, options),
    {
        Exchange::new(path, "GET", false, options)
    }

    /// A POST request.
    pub fn post(path: &str, options: RequestOptions) -> (exchange: Self)
        ensures
            exchange@ == ready(path@, "POST"@, true, options),
    {
        Exchange::new(path, "POST", true, options)
    }

    /// A PUT request.
    pub fn put(path: &str, options: RequestOptions) -> (exchange: Self)
        ensures
            exchange@ == ready(path@, "PUT"@, true, options),
    {
        Exchange::new(path, "PUT", true, options)
    }

    /// A DELETE request.
    pub fn delete(path: &str, options: RequestOptions) -> (exchange: Self)
        ensures
            exchange@ == ready(path@, "DELETE"@, false, options),
    {
        Exchange::new(path, "DELETE", false, options)
    }

    /// A DELETE request with a body.
    pub fn delete_with_body(path: &str, options: RequestOptions) -> (exchange: Self)
        ensures
            exchange@ == ready(path@, "DELETE"@, true, options),
    {
        Exchange::new(path, "DELETE", true, options)
    }

    /// A PATCH request.
    pub fn patch(path: &str, options: RequestOptions) -> (exchange: Self)
        ensures
            exchange@ == ready(path@, "PATCH"@, true, options),
    {
        Exchange::new(path, "PATCH", true, options)
    }

    fn proceed(&mut self, phase: Phase<String>, action: Action<String, Vec<(String, String)>>) -> (
    res: Action<String, Vec<(String, String)>>)
        ensures
            (final(self)@, res@) == proceed(old(self)@, phase@, action@),
    {
        self.phase = phase;
        action
    }

    fn fail(&mut self, error: ApiError<String>) -> (action: Action<String, Vec<(String, String)>>)
        ensures
            (final(self)@, action@) == finish(old(self)@, Err(error@)),
    {
        self.proceed(Phase::Done, Action::Finish(Err(error)))
    }

    /// The request, authenticated with a token where there is one.
    pub fn plan<R, I>(&self, client: &Client<R, I>, token: Option<&str>) -> (res: RequestPlan<
        String,
        Vec<(String, String)>,
    >)
        ensures
            res@ == plan(
                self@,
                client@,
                match token {
                    Some(t) => Some(t@),
                    None => None,
                },
            ),
    {
        let url = client.build_url(self.path.as_str());
        let mut headers: Vec<(String, String)> = Vec::new();
        let ghost auth: Headers = match token {
            Some(t) => seq![bearer(t@)],
            None => Seq::empty(),
        };
        if let Some(token) = token {
            headers.push(("Authorization".to_owned(), concat2("Bearer ", token)));
        }
        assert(headers_view(headers@) =~= auth);
        let ghost id: Headers = if client@.config.client_id.len() > 0 {
            seq![(CR_HEADER_PREFIX@ + "Client-Id"@, client@.config.client_id)]
        } else {
            Seq::empty()
        };
        if !client.config.client_id.as_str().is_empty() {
            headers.push(
                (concat2(CR_HEADER_PREFIX, "Client-Id"), client.config.client_id.clone()),
            );
        }
        assert(headers_view(headers@) =~= auth + id);
        if self.options.with_purchase_ticket {
            if let Some(ticket) = &client.purchase_ticket {
                headers.push((concat2(CR_HEADER_PREFIX, "Purchase-Ticket"), ticket.clone()));
            }
        }
        assert(headers_view(headers@) =~= plan(
            self@,
            client@,
            match token {
                Some(t) => Some(t@),
                None => None,
            },
        ).headers);
        RequestPlan { method: self.method.clone(), url, headers, with_body: self.with_body }
    }

    fn ask_refresh<R, I>(
        &mut self,
        client: &Client<R, I>,
        phase: Phase<String>,
        refresh_token: String,
    ) -> (action: Action<String, Vec<(String, String)>>)
        ensures
            (final(self)@, action@) == proceed(
                old(self)@,
                phase@,
                refresh_with(client@, refresh_token@),
            ),
    {
        let url = client.build_url("/session/token/refresh");
        self.proceed(phase, Action::PostRefresh { url, refresh_token })
    }

    /// Goes on as a verdict says, once whoever asked to be told of it has been.
    pub fn conclude<R, I>(&mut self, client: &Client<R, I>, verdict: Verdict<String>) -> (action: Action<
        String,
        Vec<(String, String)>,
    >)
        ensures
            (final(self)@, action@) == concluded(old(self)@, client@, verdict@),
    {
        match verdict {
            Verdict::NoTokens => self.fail(ApiError::NoTokensAvailable),
            Verdict::RefreshExpired => self.fail(ApiError::RefreshTokenExpired),
            Verdict::AccessExpired => self.fail(ApiError::AccessTokenExpired),
            Verdict::Refused { code, message } => self.fail(ApiError::Response { code, message }),
            Verdict::Retry => match client.tokens.refresh_token.clone() {
                Some(token) => self.ask_refresh(
                    client,
                    Phase::Refreshing { second: false, retrying: true },
                    token,
                ),
                None => self.fail(ApiError::NoTokensAvailable),
            },
        }
    }

    fn judge<R, I>(&mut self, client: &Client<R, I>, told: bool, verdict: Verdict<String>) -> (action:
        Action<String, Vec<(String, String)>>)
        ensures
            (final(self)@, action@) == judged(old(self)@, client@, told, verdict@),
    {
        if told && client.on_credential_invalid.is_some() {
            self.proceed(Phase::TellingInvalid(verdict), Action::NotifyInvalid)
        } else {
            self.conclude(client, verdict)
        }
    }

    fn attempt<R, I>(&mut self, client: &Client<R, I>, second: bool, clock: Readings) -> (action:
        Action<String, Vec<(String, String)>>)
        ensures
            (final(self)@, action@) == attempt(old(self)@, client@, second, clock),
    {
        if self.options.no_credential {
            let plan = self.plan(client, None);
            return self.proceed(Phase::Sent { second }, Action::Send(plan));
        }
        match client.tokens.decide_at(clock.refresh_now, clock.access_now) {
            TokenDecision::NoTokens => self.judge(client, true, Verdict::NoTokens),
            TokenDecision::RefreshExpired => self.judge(client, true, Verdict::RefreshExpired),
            TokenDecision::Use(token) => {
                let plan = self.plan(client, Some(token.as_str()));
                self.proceed(Phase::Sent { second }, Action::Send(plan))
            },
            TokenDecision::Refresh(token) => self.ask_refresh(
                client,
                Phase::Refreshing { second, retrying: false },
                token,
            ),
        }
    }

    fn refused<R, I>(
        &mut self,
        client: &Client<R, I>,
        code: i32,
        message: String,
        token_expired: bool,
        may_retry: bool,
    ) -> (action: Action<String, Vec<(String, String)>>)
        ensures
            (final(self)@, action@) == refused(
                old(self)@,
                client@,
                code,
                message@,
                token_expired,
                may_retry,
            ),
    {
        let about_credentials = match ErrorCode::from_code(code) {
            Some(known) => known.is_credential_error(),
            None => false,
        };
        assert(about_credentials == is_credential_number(code)) by {
            assert(code_number(ErrorCode::LoginRequired) == 401);
            assert(code_number(ErrorCode::CredentialInvalid) == 40020);
            assert(code_number(ErrorCode::SessionExpired) == 40089);
        }
        let verdict = if token_expired && may_retry {
            Verdict::Retry
        } else if token_expired {
            Verdict::AccessExpired
        } else {
            Verdict::Refused { code, message }
        };
        self.judge(client, about_credentials, verdict)
    }

    /// Goes on with a new access token, once whoever asked to be told of it has been.
    pub fn resume<R, I>(
        &mut self,
        client: &Client<R, I>,
        access_token: &str,
        second: bool,
        retrying: bool,
        clock: Readings,
    ) -> (action: Action<String, Vec<(String, String)>>)
        ensures
            (final(self)@, action@) == resumed(
                old(self)@,
                client@,
                access_token@,
                second,
                retrying,
                clock,
            ),
    {
        if retrying {
            self.attempt(client, true, clock)
        } else {
            let plan = self.plan(client, Some(access_token));
            self.proceed(Phase::Sent { second }, Action::Send(plan))
        }
    }

    /// Goes on with new tokens, which the client holds already.
    pub fn accept<R, I>(
        &mut self,
        client: &Client<R, I>,
        token: Token<String>,
        second: bool,
        retrying: bool,
        clock: Readings,
    ) -> (action: Action<String, Vec<(String, String)>>)
        ensures
            (final(self)@, action@) == accepted(
                old(self)@,
                client@,
                token@,
                second,
                retrying,
                clock,
            ),
    {
        if client.on_credential_refreshed.is_some() {
            let access_token = token.access_token.clone();
            self.proceed(
                Phase::TellingRefreshed { second, retrying, access_token },
                Action::NotifyRefreshed(token),
            )
        } else {
            self.resume(client, token.access_token.as_str(), second, retrying, clock)
        }
    }

    fn on_refreshed<R, I>(
        &mut self,
        client: &mut Client<R, I>,
        reply: RefreshReply<String>,
        second: bool,
        retrying: bool,
        clock: Readings,
    ) -> (action: Action<String, Vec<(String, String)>>)
        ensures
            (final(self)@, final(client)@, action@) == refreshed(
                old(self)@,
                old(client)@,
                reply@,
                second,
                retrying,
                clock,
            ),
    {
        if reply.code != ErrorCode::Success.number() {
            return self.refused(
                &*client,
                reply.code,
                reply.message,
                reply.token_expired,
                !retrying && !second,
            );
        }
        let token = match reply.token {
            Some(token) => token,
            None => {
                return self.fail(ApiError::Other("No token in response".to_owned()));
            },
        };
        if let Err(error) = client.set_tokens_with_expiry(&token) {
            return self.fail(error);
        }
        self.accept(&*client, token, second, retrying, clock)
    }

    fn on_notified<R, I>(&mut self, client: &Client<R, I>, clock: Readings) -> (action: Option<
        Action<String, Vec<(String, String)>>,
    >)
        ensures
            followed(
                old(self)@,
                client@,
                Event::Notified,
                clock,
                final(self)@,
                client@,
                action,
            ),
    {
        match &self.phase {
            Phase::TellingRefreshed { second, retrying, access_token } => {
                let second: bool = *second;
                let retrying: bool = *retrying;
                let access_token = access_token.clone();
                Some(self.resume(client, access_token.as_str(), second, retrying, clock))
            },
            Phase::TellingInvalid(verdict) => {
                let verdict = verdict.duplicate();
                Some(self.conclude(client, verdict))
            },
            _ => None,
        }
    }

    /// Takes note of an event, with the clock at the given readings, and says what is to be done
    /// next. An event that is not what the exchange waits for changes nothing.
    pub fn step_at<R, I>(
        &mut self,
        client: &mut Client<R, I>,
        event: Event<String>,
        clock: Readings,
    ) -> (action: Option<Action<String, Vec<(String, String)>>>)
        ensures
            followed(
                old(self)@,
                old(client)@,
                event@,
                clock,
                final(self)@,
                final(client)@,
                action,
            ),
    {
        match (&self.phase, event) {
            (Phase::Ready, Event::Start) => Some(self.attempt(&*client, false, clock)),
            (Phase::Refreshing { second, retrying }, Event::Refreshed(reply)) => {
                let second: bool = *second;
                let retrying: bool = *retrying;
                Some(self.on_refreshed(client, reply, second, retrying, clock))
            },
            (Phase::Refreshing { .. }, Event::RefreshFailed) => Some(
                self.fail(ApiError::Transport),
            ),
            (_, Event::Notified) => self.on_notified(&*client, clock),
            (Phase::Sent { second }, Event::Reply(text)) => {
                let second: bool = *second;
                match check_text(text.as_str(), self.options.skip_lock_conflict) {
                    Some(error) => Some(self.fail(error)),
                    None => Some(self.proceed(Phase::Reading { second }, Action::Parse)),
                }
            },
            (Phase::Sent { .. }, Event::SendFailed) => Some(self.fail(ApiError::Transport)),
            (Phase::Reading { second }, Event::Parsed { code, message, token_expired }) => {
                let may_retry: bool = !*second;
                if code == ErrorCode::Success.number() {
                    Some(self.proceed(Phase::Done, Action::Finish(Ok(()))))
                } else {
                    Some(self.refused(&*client, code, message, token_expired, may_retry))
                }
            },
            (Phase::Reading { .. }, Event::ParseFailed) => Some(self.fail(ApiError::Malformed)),
            _ => None,
        }
    }

    /// Takes note of an event and says what is to be done next. An event that is not what the
    /// exchange waits for changes nothing.
    pub fn step<R, I>(&mut self, client: &mut Client<R, I>, event: Event<String>) -> (action:
        Option<Action<String, Vec<(String, String)>>>)
        ensures
            followed_by_clock(
                old(self)@,
                old(client)@,
                event@,
                final(self)@,
                final(client)@,
                action,
            ),
    {
        let clock = Readings { refresh_now: read_clock(), access_now: read_clock() };
        let action = self.step_at(client, event, clock);
        assert(followed(old(self)@, old(client)@, event@, clock, self@, client@, action));
        action
    }
}

/// The remainder of truncating division, made non-negative, is that of flooring division.
proof fn lemma_remainder(n: int, rest: int)
    requires
        rest == if n >= 0 {
            n % 0x1_0000_0000
        } else {
            -((-n) % 0x1_0000_0000)
        },
    ensures
        n % 0x1_0000_0000 == if rest < 0 {
            rest + 0x1_0000_0000
        } else {
            rest
        },
{
}

} // verus!

//! What holds of every request to the API, whatever happens to it.

use crate::client::{endpoint, ClientView};
use crate::config::RequestOptions;
use crate::error::{code_number, is_credential_number, ApiError, ErrorCode};
use crate::exchange::{
    bearer, followed, followed_by_clock, low_bits, next, plan, ready, refresh_with, renewed,
    stated_code, stated_message, Action, Event, ExchangeView, Headers, Phase, Readings, RefreshReply,
};
use crate::json::{json_of, json_text_fields, value_of, JsonMember};
use crate::jwt::token_verdict;
use crate::text::Text;
use crate::time::{is_clock_time, read_off_clock, Timestamp};
use crate::tokens::{at_or_after, decision, Token, TokenDecision};
use vstd::prelude::*;

verus! {

/// What an exchange is given at a step: the client as it then is, the event, and the clock.
#[verifier::reject_recursive_types(R)]
#[verifier::reject_recursive_types(I)]
pub struct Input<R, I> {
    pub client: ClientView<R, I>,
    pub event: Event<Text>,
    pub clock: Readings,
}

/// The state and the actions of an exchange after the given inputs. Between them the client may
/// have changed in any way.
pub open spec fn run<R, I>(x: ExchangeView, inputs: Seq<Input<R, I>>) -> (
    ExchangeView,
    Seq<Action<Text, Headers>>,
)
    decreases inputs.len(),
{
    if inputs.len() == 0 {
        (x, Seq::empty())
    } else {
        let (before, actions) = run(x, inputs.drop_last());
        let input = inputs.last();
        match next(before, input.client, input.event, input.clock) {
            Some((after, _, action)) => (after, actions.push(action)),
            None => (before, actions),
        }
    }
}

/// The number of actions that send the request.
pub open spec fn sends(actions: Seq<Action<Text, Headers>>) -> nat
    decreases actions.len(),
{
    if actions.len() == 0 {
        0
    } else {
        sends(actions.drop_last()) + if actions.last() is Send {
            1nat
        } else {
            0
        }
    }
}

/// The number of actions that ask for new tokens.
pub open spec fn refreshes(actions: Seq<Action<Text, Headers>>) -> nat
    decreases actions.len(),
{
    if actions.len() == 0 {
        0
    } else {
        refreshes(actions.drop_last()) + if actions.last() is PostRefresh {
            1nat
        } else {
            0
        }
    }
}

/// The actions that may still follow a phase.
spec fn actions_left(phase: Phase<Text>) -> nat {
    match phase {
        Phase::Ready => 13,
        Phase::Refreshing { second, retrying } => if retrying {
            7
        } else if second {
            5
        } else {
            12
        },
        Phase::TellingRefreshed { second, retrying, .. } => if retrying {
            6
        } else if second {
            4
        } else {
            11
        },
        Phase::Sent { second } => if second {
            3
        } else {
            10
        },
        Phase::Reading { second } => if second {
            2
        } else {
            9
        },
        Phase::TellingInvalid(verdict) => if verdict is Retry {
            8
        } else {
            1
        },
        Phase::Done => 0,
    }
}

/// The requests that may still follow a phase.
spec fn sends_left(phase: Phase<Text>) -> nat {
    match phase {
        Phase::Ready => 2,
        Phase::Refreshing { second, retrying } | Phase::TellingRefreshed { second, retrying, .. } =>
        if second || retrying {
            1
        } else {
            2
        },
        Phase::TellingInvalid(verdict) => if verdict is Retry {
            1
        } else {
            0
        },
        Phase::Sent { second } | Phase::Reading { second } => if second {
            0
        } else {
            1
        },
        Phase::Done => 0,
    }
}

/// The requests for new tokens that may still follow a phase.
spec fn refreshes_left(phase: Phase<Text>) -> nat {
    match phase {
        Phase::Ready => 3,
        Phase::Refreshing { second, retrying } | Phase::TellingRefreshed { second, retrying, .. } =>
        if retrying {
            1
        } else if second {
            0
        } else {
            2
        },
        Phase::TellingInvalid(verdict) => if verdict is Retry {
            2
        } else {
            0
        },
        Phase::Sent { second } | Phase::Reading { second } => if second {
            0
        } else {
            2
        },
        Phase::Done => 0,
    }
}

/// A request is tried again at most once, new tokens are asked for at most three times, and
/// after at most thirteen actions the exchange has ended, whatever the server replies.
pub proof fn law_retried_at_most_once<R, I>(x: ExchangeView, inputs: Seq<Input<R, I>>)
    requires
        x.phase is Ready,
    ensures
        sends(run(x, inputs).1) <= 2,
        refreshes(run(x, inputs).1) <= 3,
        run(x, inputs).1.len() <= 13,
{
    lemma_left(x, inputs);
}

proof fn lemma_left<R, I>(x: ExchangeView, inputs: Seq<Input<R, I>>)
    requires
        x.phase is Ready,
    ensures
        sends(run(x, inputs).1) + sends_left(run(x, inputs).0.phase) <= 2,
        refreshes(run(x, inputs).1) + refreshes_left(run(x, inputs).0.phase) <= 3,
        run(x, inputs).1.len() + actions_left(run(x, inputs).0.phase) <= 13,
    decreases inputs.len(),
{
    if inputs.len() > 0 {
        let rest = inputs.drop_last();
        lemma_left(x, rest);
        let (before, actions) = run(x, rest);
        let input = inputs.last();
        if let Some((_, _, action)) = next(before, input.client, input.event, input.clock) {
            assert(actions.push(action).drop_last() =~= actions);
        }
    }
}

/// Once an exchange has ended, nothing more happens.
pub proof fn law_end_is_final<R, I>(
    x: ExchangeView,
    c: ClientView<R, I>,
    e: Event<Text>,
    clock: Readings,
)
    requires
        x.phase is Done,
    ensures
        next(x, c, e, clock) is None,
{
}

/// Whether one of the headers has a name.
pub open spec fn has_header(headers: Headers, name: Text) -> bool {
    exists|i: int| 0 <= i < headers.len() && (#[trigger] headers[i]).0 == name
}

/// A request without credentials never carries any, not even when it is tried again.
pub proof fn law_no_credential_is_kept<R, I>(
    x: ExchangeView,
    inputs: Seq<Input<R, I>>,
    i: int,
)
    requires
        x.phase is Ready,
        x.options.no_credential,
        0 <= i < run(x, inputs).1.len(),
    ensures
        run(x, inputs).1[i] matches Action::Send(request) ==> !has_header(
            request.headers,
            "Authorization"@,
        ),
{
    lemma_no_credential(x, inputs);
}

proof fn lemma_no_credential<R, I>(x: ExchangeView, inputs: Seq<Input<R, I>>)
    requires
        x.phase is Ready,
        x.options.no_credential,
    ensures
        run(x, inputs).0.options == x.options,
        run(x, inputs).0.phase matches Phase::Refreshing { retrying, .. } ==> retrying,
        run(x, inputs).0.phase matches Phase::TellingRefreshed { retrying, .. } ==> retrying,
        forall|i: int|
            0 <= i < run(x, inputs).1.len() ==> ((#[trigger] run(x, inputs).1[i])
                matches Action::Send(request) ==> !has_header(request.headers, "Authorization"@)),
    decreases inputs.len(),
{
    if inputs.len() > 0 {
        let rest = inputs.drop_last();
        lemma_no_credential(x, rest);
        let (before, actions) = run(x, rest);
        let input = inputs.last();
        if let Some((_, after, action)) = next(before, input.client, input.event, input.clock) {
            lemma_plan_without_token(before, input.client);
            lemma_plan_without_token(before, after);
            assert(action matches Action::Send(request) ==> !has_header(
                request.headers,
                "Authorization"@,
            ));
        }
    }
}

proof fn lemma_plan_without_token<R, I>(x: ExchangeView, c: ClientView<R, I>)
    ensures
        !has_header(plan(x, c, None).headers, "Authorization"@),
{
    reveal_strlit("X-Cr-");
    reveal_strlit("Client-Id");
    reveal_strlit("Purchase-Ticket");
    reveal_strlit("Authorization");
    let headers = plan(x, c, None).headers;
    assert forall|i: int| 0 <= i < headers.len() implies (#[trigger] headers[i]).0
        != "Authorization"@ by {
        assert(headers[i].0[0] == 'X');
    }
}

/// Whenever the request is sent, first or again, it has the method, the path and the body that it
/// was made with.
pub proof fn law_retry_repeats_request<R, I>(
    x: ExchangeView,
    inputs: Seq<Input<R, I>>,
    input: Input<R, I>,
)
    ensures
        next(run(x, inputs).0, input.client, input.event, input.clock) matches Some((_, _, action))
            ==> (action matches Action::Send(request) ==> {
            &&& request.method == x.method
            &&& request.url == endpoint(input.client.config, x.path)
            &&& request.with_body == x.with_body
        }),
{
    lemma_request_is_kept(x, inputs);
}

proof fn lemma_request_is_kept<R, I>(x: ExchangeView, inputs: Seq<Input<R, I>>)
    ensures
        run(x, inputs).0 == (ExchangeView { phase: run(x, inputs).0.phase, ..x }),
    decreases inputs.len(),
{
    if inputs.len() > 0 {
        lemma_request_is_kept(x, inputs.drop_last());
    }
}

/// A request with credentials begins with an access token: the one that the client then holds,
/// while neither token has expired, or the one that has just been refreshed.
pub proof fn law_request_carries_valid_token<R, I>(
    x: ExchangeView,
    c: ClientView<R, I>,
    e: Event<Text>,
    clock: Readings,
)
    requires
        !x.options.no_credential,
        next(x, c, e, clock) matches Some((_, _, action)) && action is Send,
    ensures
        next(x, c, e, clock) matches Some((_, after, action)) && {
            &&& action matches Action::Send(request)
            &&& request.headers.len() > 0
            &&& {
                ||| decision(after.tokens, clock.refresh_now, clock.access_now)
                    matches TokenDecision::Use(token) && request.headers[0] == bearer(token)
                ||| e is Refreshed && (after.tokens.access_token matches Some(token)
                    && request.headers[0] == bearer(token))
                ||| x.phase matches Phase::TellingRefreshed { access_token, .. }
                    && request.headers[0] == bearer(access_token)
            }
        },
{
}

/// Whoever asks to be told of invalid credentials is told of every reply whose code is about
/// them, and whenever there are no tokens or the refresh token has expired, before the request
/// fails; and nobody is told who did not ask.
pub proof fn law_invalid_credentials_are_told<R, I>(
    x: ExchangeView,
    c: ClientView<R, I>,
    e: Event<Text>,
    clock: Readings,
)
    requires
        next(x, c, e, clock) is Some,
    ensures
        next(x, c, e, clock) matches Some((_, _, action)) && {
            &&& action is NotifyInvalid ==> c.on_credential_invalid is Some
            &&& e matches Event::Parsed { code, .. } ==> is_credential_number(code) ==> (
            action is NotifyInvalid <==> c.on_credential_invalid is Some)
            &&& e matches Event::Refreshed(reply) ==> is_credential_number(reply.code) ==> (
            action is NotifyInvalid <==> c.on_credential_invalid is Some)
            &&& e is Start && action is Finish ==> c.on_credential_invalid is None
            &&& action == Action::<Text, Headers>::Finish(Err(ApiError::RefreshTokenExpired))
                ==> x.phase is TellingInvalid || c.on_credential_invalid is None
        },
{
}

/// The client changes only by a successful refresh with an acceptable token; then it holds the
/// new tokens, and whoever asks to be told of refreshed credentials is told of them. Nothing
/// else of the client ever changes.
pub proof fn law_only_refresh_changes_client<R, I>(
    x: ExchangeView,
    c: ClientView<R, I>,
    e: Event<Text>,
    clock: Readings,
)
    requires
        next(x, c, e, clock) is Some,
    ensures
        next(x, c, e, clock) matches Some((after_x, after, action)) && {
            &&& after == (ClientView { tokens: after.tokens, ..c })
            &&& after != c || action is NotifyRefreshed ==> {
                &&& e matches Event::Refreshed(reply)
                &&& reply.code == code_number(ErrorCode::Success)
                &&& reply.token matches Some(token)
                &&& token_verdict(token.access_token) is Ok
                &&& after.tokens.access_token == Some(token.access_token)
                &&& after.tokens.refresh_token == Some(token.refresh_token)
                &&& c.on_credential_refreshed is Some ==> {
                    &&& action == Action::<Text, Headers>::NotifyRefreshed(token)
                    &&& after_x.phase matches Phase::TellingRefreshed { access_token, .. }
                    &&& access_token == token.access_token
                }
                &&& c.on_credential_refreshed is None ==> !(action is NotifyRefreshed)
            }
        },
{
}

/// A request succeeds only by a reply in the expected form whose code is success, and such a
/// reply always makes it succeed.
pub proof fn law_success_is_the_servers<R, I>(
    x: ExchangeView,
    c: ClientView<R, I>,
    e: Event<Text>,
    clock: Readings,
)
    requires
        next(x, c, e, clock) is Some,
    ensures
        next(x, c, e, clock) matches Some((_, _, action)) && (action == Action::<
            Text,
            Headers,
        >::Finish(Ok(())) <==> (e matches Event::Parsed { code, .. } && code == code_number(
            ErrorCode::Success,
        ))),
{
}

/// What follows an event once the callback that it calls for, if any, has returned; `later` is
/// the client as the callback left it.
pub open spec fn once_told<R, I>(
    x: ExchangeView,
    c: ClientView<R, I>,
    e: Event<Text>,
    clock: Readings,
    later: ClientView<R, I>,
    later_clock: Readings,
) -> Option<(ExchangeView, ClientView<R, I>, Action<Text, Headers>)> {
    match next(x, c, e, clock) {
        Some((after, _, Action::NotifyInvalid)) => next(
            after,
            later,
            Event::Notified,
            later_clock,
        ),
        Some((after, _, Action::NotifyRefreshed(_))) => next(
            after,
            later,
            Event::Notified,
            later_clock,
        ),
        res => res,
    }
}

/// A reply with a code other than success fails with that code and its message, unless it says that the access
/// token has expired; whatever the callback did.
pub proof fn law_refusal_is_reported<R, I>(
    x: ExchangeView,
    c: ClientView<R, I>,
    code: i32,
    message: Text,
    clock: Readings,
    later: ClientView<R, I>,
    later_clock: Readings,
)
    requires
        x.phase is Reading,
        code != code_number(ErrorCode::Success),
    ensures
        once_told(
            x,
            c,
            Event::Parsed { code, message, token_expired: false },
            clock,
            later,
            later_clock,
        ) matches Some((after, _, action)) && {
            &&& after.phase is Done
            &&& action == Action::<Text, Headers>::Finish(
                Err(ApiError::Response { code, message }),
            )
        },
{
}

/// Whether a reply text states the code of a lock conflict.
pub open spec fn states_lock_conflict(text: Text) -> bool {
    json_text_fields(text) matches Ok(fields) && value_of(fields, "code"@) == Some(
        JsonMember::<Text>::Number(Some(code_number(ErrorCode::LockConflict) as i64)),
    )
}

/// A reply whose code is that of a lock conflict ends the request with its message and its data,
/// in the first attempt and in the second, unless the options skip the handling of lock conflicts.
pub proof fn law_lock_conflict_ends_request<R, I>(
    x: ExchangeView,
    c: ClientView<R, I>,
    text: Text,
    message: Text,
    clock: Readings,
)
    requires
        x.phase is Sent,
        !x.options.skip_lock_conflict,
        states_lock_conflict(text),
        value_of(json_text_fields(text)->Ok_0, "msg"@) == Some(JsonMember::Text(message)),
    ensures
        next(x, c, Event::Reply(text), clock) matches Some((after, client, action)) && {
            &&& after.phase is Done
            &&& client == c
            &&& action == Action::<Text, Headers>::Finish(
                Err(
                    ApiError::LockConflict {
                        message,
                        detail: json_of(json_text_fields(text)->Ok_0, "data"@),
                    },
                ),
            )
        },
{
}

/// Where the options skip the handling of lock conflicts, a reply with that code is read in the
/// expected form, and refused with its code like any other.
pub proof fn law_lock_conflict_can_be_skipped<R, I>(
    x: ExchangeView,
    c: ClientView<R, I>,
    text: Text,
    message: Text,
    clock: Readings,
    later: ClientView<R, I>,
    later_clock: Readings,
)
    requires
        x.phase is Sent,
        x.options.skip_lock_conflict,
        states_lock_conflict(text),
    ensures
        next(x, c, Event::Reply(text), clock) matches Some((reading, client, action)) && {
            let code = code_number(ErrorCode::LockConflict);
            &&& client == c
            &&& action is Parse
            &&& next(reading, later, Event::Parsed { code, message, token_expired: false }, later_clock)
                matches Some((after, _, end))
            &&& after.phase is Done
            &&& end == Action::<Text, Headers>::Finish(Err(ApiError::Response { code, message }))
        },
{
}

/// A code that fits into 32 bits is read as it is.
pub proof fn law_codes_are_read_as_stated(code: i32)
    ensures
        low_bits(code as i64) == code,
{
}

/// When the server says in the first attempt that the access token has expired, new tokens are
/// asked for with the refresh token that the client holds once whoever asked to be told of
/// invalid credentials has been; and where there is none any more, the request fails.
pub proof fn law_expired_token_is_renewed<R, I>(
    x: ExchangeView,
    c: ClientView<R, I>,
    code: i32,
    message: Text,
    clock: Readings,
    later: ClientView<R, I>,
    later_clock: Readings,
)
    requires
        x.phase == (Phase::<Text>::Reading { second: false }),
        code != code_number(ErrorCode::Success),
        later == c || is_credential_number(code) && c.on_credential_invalid is Some,
    ensures
        once_told(
            x,
            c,
            Event::Parsed { code, message, token_expired: true },
            clock,
            later,
            later_clock,
        ) matches Some((after, _, action)) && match later.tokens.refresh_token {
            Some(token) => {
                &&& after.phase == (Phase::<Text>::Refreshing { second: false, retrying: true })
                &&& action == refresh_with(later, token)
            },
            None => action == Action::<Text, Headers>::Finish(Err(ApiError::NoTokensAvailable)),
        },
{
}

/// When the server then hands out an acceptable token, the request is sent once more, with the
/// access token that the client holds once whoever asked to be told of it has been; provided that
/// neither token has expired by then.
pub proof fn law_renewed_token_is_used<R, I>(
    x: ExchangeView,
    c: ClientView<R, I>,
    token: Token<Text>,
    message: Text,
    token_expired: bool,
    clock: Readings,
    later: ClientView<R, I>,
    later_clock: Readings,
)
    requires
        x.phase == (Phase::<Text>::Refreshing { second: false, retrying: true }),
        !x.options.no_credential,
        token_verdict(token.access_token) is Ok,
        c.on_credential_refreshed is Some || later == renewed(c, token) && later_clock == clock,
        decision(later.tokens, later_clock.refresh_now, later_clock.access_now) is Use,
    ensures
        once_told(
            x,
            c,
            Event::Refreshed(
                RefreshReply {
                    code: code_number(ErrorCode::Success),
                    message,
                    token_expired,
                    token: Some(token),
                },
            ),
            clock,
            later,
            later_clock,
        ) matches Some((after, _, action)) && {
            &&& after.phase == (Phase::<Text>::Sent { second: true })
            &&& later.tokens.access_token matches Some(held)
            &&& action == Action::<Text, Headers>::Send(plan(x, later, Some(held)))
        },
{
}

/// A request carries the headers that are called for, and no others: the access token where there
/// is one, the client ID where it is set, the purchase ticket where it is set and asked for. Each
/// stands there once.
pub proof fn law_headers_are_complete<R, I>(
    x: ExchangeView,
    c: ClientView<R, I>,
    token: Option<Text>,
    name: Text,
    value: Text,
)
    ensures
        plan(x, c, token).headers.contains((name, value)) <==> {
            ||| name == "Authorization"@ && (token matches Some(t) && value == "Bearer "@ + t)
            ||| name == "X-Cr-"@ + "Client-Id"@ && value == c.config.client_id && value.len() > 0
            ||| name == "X-Cr-"@ + "Purchase-Ticket"@ && c.purchase_ticket == Some(value)
                && x.options.with_purchase_ticket
        },
        plan(x, c, token).headers.len() == (if token is Some {
            1int
        } else {
            0
        }) + (if c.config.client_id.len() > 0 {
            1int
        } else {
            0
        }) + (if c.purchase_ticket is Some && x.options.with_purchase_ticket {
            1int
        } else {
            0
        }),
        plan(x, c, token).method == x.method,
        plan(x, c, token).with_body == x.with_body,
        plan(x, c, token).url == c.config.base_url + "/api/v4"@ + x.path,
{
    let headers = plan(x, c, token).headers;
    let auth: Headers = match token {
        Some(token) => seq![bearer(token)],
        None => Seq::empty(),
    };
    let id: Headers = if c.config.client_id.len() > 0 {
        seq![("X-Cr-"@ + "Client-Id"@, c.config.client_id)]
    } else {
        Seq::empty()
    };
    let ticket: Headers = match c.purchase_ticket {
        Some(ticket) => if x.options.with_purchase_ticket {
            seq![("X-Cr-"@ + "Purchase-Ticket"@, ticket)]
        } else {
            Seq::empty()
        },
        None => Seq::empty(),
    };
    assert(headers =~= auth + id + ticket);
    if token matches Some(t) && name == "Authorization"@ && value == "Bearer "@ + t {
        assert(headers[0] == (name, value));
    }
    if name == "X-Cr-"@ + "Client-Id"@ && value == c.config.client_id && value.len() > 0 {
        assert(headers[auth.len() as int] == (name, value));
    }
    if name == "X-Cr-"@ + "Purchase-Ticket"@ && c.purchase_ticket == Some(value)
        && x.options.with_purchase_ticket {
        assert(headers[(auth.len() + id.len()) as int] == (name, value));
    }
}

/// How a request begins: without credentials it is sent at once; with both tokens in their time it
/// is sent with the access token; with an access token that is over it asks for new tokens with the
/// refresh token; and without tokens, or with a refresh token that is over, it fails, once whoever
/// asked to be told of that has been.
pub proof fn law_request_begins<R, I>(
    x: ExchangeView,
    c: ClientView<R, I>,
    clock: Readings,
    later: ClientView<R, I>,
    later_clock: Readings,
    access_token: Text,
    refresh_token: Text,
)
    requires
        x.phase is Ready,
    ensures
        once_told(x, c, Event::Start, clock, later, later_clock) matches Some((after, client, action))
            && {
            &&& x.options.no_credential ==> {
                &&& action == Action::<Text, Headers>::Send(plan(x, c, None))
                &&& after.phase == (Phase::<Text>::Sent { second: false })
            }
            &&& !x.options.no_credential && !(c.tokens.access_token is Some
                && c.tokens.refresh_token is Some) ==> action == Action::<Text, Headers>::Finish(
                Err(ApiError::NoTokensAvailable),
            )
            &&& !x.options.no_credential && c.tokens.access_token == Some(access_token)
                && c.tokens.refresh_token == Some(refresh_token) ==> {
                let refresh_over = c.tokens.refresh_token_expires matches Some(limit) ==> at_or_after(
                    clock.refresh_now,
                    limit,
                );
                let access_over = c.tokens.access_token_expires matches Some(limit) ==> at_or_after(
                    clock.access_now,
                    limit,
                );
                if refresh_over {
                    action == Action::<Text, Headers>::Finish(Err(ApiError::RefreshTokenExpired))
                } else if access_over {
                    &&& action == (Action::<Text, Headers>::PostRefresh {
                        url: c.config.base_url + "/api/v4"@ + "/session/token/refresh"@,
                        refresh_token,
                    })
                    &&& after.phase == (Phase::<Text>::Refreshing {
                        second: false,
                        retrying: false,
                    })
                } else {
                    &&& action == Action::<Text, Headers>::Send(plan(x, c, Some(access_token)))
                    &&& after.phase == (Phase::<Text>::Sent { second: false })
                }
            }
        },
{
}

/// An access token that every reading of the machine's clock finds expired is never sent: with a
/// refresh token that none finds expired, new tokens are asked for first.
pub proof fn law_clock_refreshes_expired_token<R, I>(
    x0: ExchangeView,
    c0: ClientView<R, I>,
    x: ExchangeView,
    c: ClientView<R, I>,
    action: Option<Action<String, Vec<(String, String)>>>,
    access_limit: Timestamp,
    refresh_limit: Timestamp,
)
    requires
        followed_by_clock(x0, c0, Event::Start, x, c, action),
        x0.phase is Ready,
        !x0.options.no_credential,
        c0.tokens.access_token is Some,
        c0.tokens.refresh_token is Some,
        c0.tokens.access_token_expires == Some(access_limit),
        c0.tokens.refresh_token_expires == Some(refresh_limit),
        forall|now: Timestamp| #[trigger] read_off_clock(now) ==> !at_or_after(now, refresh_limit),
    ensures
        (forall|now: Timestamp| #[trigger] read_off_clock(now) ==> at_or_after(now, access_limit))
            ==> (action matches Some(a) && (a@ matches Action::PostRefresh { refresh_token, .. }
            && Some(refresh_token) == c0.tokens.refresh_token)),
        (forall|now: Timestamp| #[trigger] read_off_clock(now) ==> !at_or_after(now, access_limit))
            ==> (action matches Some(a) && a@ is Send),
{
    let clock = choose|clock: Readings|
        read_off_clock(clock.refresh_now) && read_off_clock(clock.access_now) && is_clock_time(
            clock.refresh_now,
        ) && is_clock_time(clock.access_now) && #[trigger] followed(
            x0,
            c0,
            Event::Start,
            clock,
            x,
            c,
            action,
        );
    assert(followed(x0, c0, Event::Start, clock, x, c, action));
    assert(!at_or_after(clock.refresh_now, refresh_limit));
}

/// A step that is taken by the machine's clock is the one that follows at two of its readings.
pub proof fn law_step_is_next_by_clock<R, I>(
    x0: ExchangeView,
    c0: ClientView<R, I>,
    e: Event<Text>,
    x: ExchangeView,
    c: ClientView<R, I>,
    action: Option<Action<String, Vec<(String, String)>>>,
)
    requires
        followed_by_clock(x0, c0, e, x, c, action),
    ensures
        exists|clock: Readings| #[trigger]
            read_off_clock(clock.refresh_now) && #[trigger] read_off_clock(clock.access_now)
                && match action {
                Some(a) => next(x0, c0, e, clock) == Some((x, c, a@)),
                None => next(x0, c0, e, clock) is None && x == x0 && c == c0,
            },
{
    let clock = choose|clock: Readings|
        read_off_clock(clock.refresh_now) && read_off_clock(clock.access_now) && is_clock_time(
            clock.refresh_now,
        ) && is_clock_time(clock.access_now) && #[trigger] followed(x0, c0, e, clock, x, c, action);
    assert(read_off_clock(clock.refresh_now) && read_off_clock(clock.access_now));
    assert(followed(x0, c0, e, clock, x, c, action));
}

/// The number that a reply states is read modulo 2^32, into the range of an `i32`; a reply without
/// a code, or with one that is no such number, states success.
pub proof fn law_code_is_read_modulo(n: i64, member: Option<JsonMember<Text>>)
    ensures
        (low_bits(n) - n) % 0x1_0000_0000 == 0,
        stated_code(Some(JsonMember::Number(Some(n)))) == low_bits(n),
        !(member matches Some(JsonMember::Number(Some(_)))) ==> stated_code(member) == 0,
        !(member matches Some(JsonMember::Text(_))) ==> stated_message(member) == Seq::<
            char,
        >::empty(),
{
}

/// A reply that is JSON is a lock conflict only if the code that it states is 40073, modulo 2^32,
/// and the options do not skip that; any other reply is read in the expected form, and nothing
/// else happens. A lock conflict ends the request with the reply's message, if it has one, and
/// with the JSON of its data.
pub proof fn law_only_lock_conflict_is_one<R, I>(
    x: ExchangeView,
    c: ClientView<R, I>,
    text: Text,
    clock: Readings,
)
    requires
        x.phase is Sent,
        json_text_fields(text) is Ok,
    ensures
        ({
            let fields = json_text_fields(text)->Ok_0;
            let conflict = !x.options.skip_lock_conflict && fields.dom().contains("code"@) && (
            fields["code"@].value matches JsonMember::Number(Some(n)) && n as int % 0x1_0000_0000
                == 40073);
            next(x, c, Event::Reply(text), clock) matches Some((after, client, action)) && {
                &&& client == c
                &&& !conflict ==> {
                    &&& action is Parse
                    &&& after.phase == (Phase::<Text>::Reading { second: x.phase->Sent_second })
                }
                &&& conflict ==> {
                    &&& after.phase is Done
                    &&& action matches Action::Finish(Err(ApiError::LockConflict { message, detail }))
                    &&& message == if fields.dom().contains("msg"@) && fields["msg"@].value is Text {
                        fields["msg"@].value->Text_0
                    } else {
                        Seq::empty()
                    }
                    &&& detail == if fields.dom().contains("data"@) {
                        Some(fields["data"@].json)
                    } else {
                        None
                    }
                }
            }
        }),
{
}

/// A reply that is no JSON fails in the parser's words; one that cannot be had, or not be read in
/// the expected form, fails as that.
pub proof fn law_broken_reply_fails<R, I>(
    x: ExchangeView,
    c: ClientView<R, I>,
    text: Text,
    clock: Readings,
)
    ensures
        x.phase is Sent ==> {
            &&& json_text_fields(text) matches Err(words) ==> (next(
                x,
                c,
                Event::Reply(text),
                clock,
            ) matches Some((_, client, action)) && client == c && action == Action::<
                Text,
                Headers,
            >::Finish(Err(ApiError::Json(words))))
            &&& next(x, c, Event::SendFailed, clock) matches Some((_, client, action))
            &&& client == c
            &&& action == Action::<Text, Headers>::Finish(Err(ApiError::Transport))
        },
        x.phase is Refreshing ==> {
            &&& next(x, c, Event::RefreshFailed, clock) matches Some((_, client, action))
            &&& client == c
            &&& action == Action::<Text, Headers>::Finish(Err(ApiError::Transport))
        },
        x.phase is Reading ==> {
            &&& next(x, c, Event::ParseFailed, clock) matches Some((_, client, action))
            &&& client == c
            &&& action == Action::<Text, Headers>::Finish(Err(ApiError::Malformed))
        },
{
}

/// Only a reply whose code is 401, 40020 or 40089 has anyone told of invalid credentials.
pub proof fn law_only_credential_codes_tell<R, I>(
    x: ExchangeView,
    c: ClientView<R, I>,
    e: Event<Text>,
    clock: Readings,
)
    requires
        next(x, c, e, clock) matches Some((_, _, action)) && action is NotifyInvalid,
    ensures
        e matches Event::Parsed { code, .. } ==> code == 401 || code == 40020 || code == 40089,
        e matches Event::Refreshed(reply) ==> (reply.code == 0 || reply.code == 401 || reply.code
            == 40020 || reply.code == 40089),
        e is Start || e is Parsed || e is Refreshed || e is Notified,
{
}

/// A refused refresh fails with the server's code and message, once whoever asked to be told of
/// invalid credentials has been; the client stays as it is. A refresh that hands out no token, or
/// one that is not acceptable, fails too and changes nothing.
pub proof fn law_failed_refresh_is_reported<R, I>(
    x: ExchangeView,
    c: ClientView<R, I>,
    reply: RefreshReply<Text>,
    clock: Readings,
    later: ClientView<R, I>,
    later_clock: Readings,
)
    requires
        x.phase is Refreshing,
    ensures
        next(x, c, Event::Refreshed(reply), clock) is Some,
        reply.code != 0 ==> {
            &&& next(x, c, Event::Refreshed(reply), clock)->Some_0.1 == c
            &&& !reply.token_expired ==> once_told(
                x,
                c,
                Event::Refreshed(reply),
                clock,
                later,
                later_clock,
            )->Some_0.2 == Action::<Text, Headers>::Finish(
                Err(ApiError::Response { code: reply.code, message: reply.message }),
            )
            &&& reply.token_expired && x.phase != (Phase::<Text>::Refreshing {
                second: false,
                retrying: false,
            }) ==> once_told(x, c, Event::Refreshed(reply), clock, later, later_clock)->Some_0.2
                == Action::<Text, Headers>::Finish(Err(ApiError::AccessTokenExpired))
        },
        reply.code == 0 && reply.token is None ==> {
            &&& next(x, c, Event::Refreshed(reply), clock)->Some_0.1 == c
            &&& next(x, c, Event::Refreshed(reply), clock)->Some_0.2 == Action::<Text, Headers>::Finish(
                Err(ApiError::Other("No token in response"@)),
            )
        },
        reply.code == 0 && (reply.token matches Some(token) && token_verdict(token.access_token)
            is Err) ==> {
            &&& next(x, c, Event::Refreshed(reply), clock)->Some_0.1 == c
            &&& next(x, c, Event::Refreshed(reply), clock)->Some_0.2 == Action::<Text, Headers>::Finish(
                Err(
                    ApiError::InvalidToken(
                        token_verdict(reply.token->0.access_token)->Err_0,
                    ),
                ),
            )
        },
{
}

/// A refresh in an attempt that hands out an acceptable token has the client hold it, and the
/// request sent with it, once whoever asked to be told of it has been.
pub proof fn law_refreshed_token_is_sent<R, I>(
    x: ExchangeView,
    c: ClientView<R, I>,
    token: Token<Text>,
    message: Text,
    token_expired: bool,
    clock: Readings,
    later: ClientView<R, I>,
    later_clock: Readings,
)
    requires
        x.phase matches Phase::Refreshing { retrying, .. } && !retrying,
        token_verdict(token.access_token) is Ok,
        c.on_credential_refreshed is Some || later == renewed(c, token),
    ensures
        ({
            let e = Event::Refreshed(
                RefreshReply { code: 0, message, token_expired, token: Some(token) },
            );
            &&& next(x, c, e, clock) matches Some((_, held, _))
            &&& held.tokens.access_token == Some(token.access_token)
            &&& held.tokens.refresh_token == Some(token.refresh_token)
            &&& once_told(x, c, e, clock, later, later_clock) matches Some((after, _, action))
            &&& after.phase == (Phase::<Text>::Sent { second: x.phase->Refreshing_second })
            &&& action == Action::<Text, Headers>::Send(plan(x, later, Some(token.access_token)))
        }),
{
}

/// In the second attempt an access token that the server finds expired is not refreshed again: the
/// request fails.
pub proof fn law_second_expiry_fails<R, I>(
    x: ExchangeView,
    c: ClientView<R, I>,
    code: i32,
    message: Text,
    clock: Readings,
    later: ClientView<R, I>,
    later_clock: Readings,
)
    requires
        x.phase == (Phase::<Text>::Reading { second: true }),
        code != 0,
    ensures
        once_told(
            x,
            c,
            Event::Parsed { code, message, token_expired: true },
            clock,
            later,
            later_clock,
        ) matches Some((after, _, action)) && {
            &&& after.phase is Done
            &&& action == Action::<Text, Headers>::Finish(Err(ApiError::AccessTokenExpired))
        },
{
}

/// A refresh that the server refuses in the first attempt, saying that the access token has
/// expired, is tried once more, with the refresh token that the client holds once whoever asked to
/// be told of invalid credentials has been.
pub proof fn law_refused_refresh_is_retried<R, I>(
    x: ExchangeView,
    c: ClientView<R, I>,
    reply: RefreshReply<Text>,
    clock: Readings,
    later: ClientView<R, I>,
    later_clock: Readings,
)
    requires
        x.phase == (Phase::<Text>::Refreshing { second: false, retrying: false }),
        reply.code != 0,
        reply.token_expired,
        later == c || is_credential_number(reply.code) && c.on_credential_invalid is Some,
    ensures
        once_told(
            x,
            c,
            Event::Refreshed(reply),
            clock,
            later,
            later_clock,
        ) matches Some((after, _, action)) && match later.tokens.refresh_token {
            Some(token) => {
                &&& after.phase == (Phase::<Text>::Refreshing { second: false, retrying: true })
                &&& action == (Action::<Text, Headers>::PostRefresh {
                    url: later.config.base_url + "/api/v4"@ + "/session/token/refresh"@,
                    refresh_token: token,
                })
            },
            None => action == Action::<Text, Headers>::Finish(Err(ApiError::NoTokensAvailable)),
        },
{
}

/// Whether an event is an answer to what a phase waits for.
pub open spec fn answers(phase: Phase<Text>, e: Event<Text>) -> bool {
    match phase {
        Phase::Ready => e is Start,
        Phase::Refreshing { .. } => e is Refreshed || e is RefreshFailed,
        Phase::TellingRefreshed { .. } | Phase::TellingInvalid(_) => e is Notified,
        Phase::Sent { .. } => e is Reply || e is SendFailed,
        Phase::Reading { .. } => e is Parsed || e is ParseFailed,
        Phase::Done => false,
    }
}

/// An exchange goes on with every answer to what it waits for, and with nothing else; and every
/// action is one that its next phase waits for the answer of.
pub proof fn law_every_answer_is_taken<R, I>(
    x: ExchangeView,
    c: ClientView<R, I>,
    e: Event<Text>,
    clock: Readings,
)
    ensures
        next(x, c, e, clock) is Some <==> answers(x.phase, e),
        next(x, c, e, clock) matches Some((after, _, action)) ==> {
            &&& action is Finish <==> after.phase is Done
            &&& action is Send <==> after.phase is Sent
            &&& action is PostRefresh <==> after.phase is Refreshing
            &&& action is Parse <==> after.phase is Reading
            &&& action is NotifyInvalid <==> after.phase is TellingInvalid
            &&& action is NotifyRefreshed <==> after.phase is TellingRefreshed
        },
{
}

/// A request that is sent, whose reply is no lock conflict and reads as success, succeeds:
/// whatever the reply is otherwise, in the first attempt and in the second.
pub proof fn law_good_reply_succeeds<R, I>(
    x: ExchangeView,
    c: ClientView<R, I>,
    text: Text,
    clock: Readings,
    later: ClientView<R, I>,
    message: Text,
    token_expired: bool,
    later_clock: Readings,
)
    requires
        x.phase is Sent,
        json_text_fields(text) matches Ok(fields) && !(fields.dom().contains("code"@) && (
        fields["code"@].value matches JsonMember::Number(Some(n)) && n as int % 0x1_0000_0000
            == 40073)),
    ensures
        next(x, c, Event::Reply(text), clock) matches Some((reading, _, action)) && {
            &&& action is Parse
            &&& next(
                reading,
                later,
                Event::Parsed { code: 0, message, token_expired },
                later_clock,
            ) matches Some((done, client, end))
            &&& done.phase is Done
            &&& client == later
            &&& end == Action::<Text, Headers>::Finish(Ok(()))
        },
{
}


/// A request that was not made yet is for the path, the method, the body and the options that it
/// was made with.
pub proof fn law_new_request_is_as_asked(
    path: Text,
    method: Text,
    with_body: bool,
    options: RequestOptions,
)
    ensures
        ready(path, method, with_body, options).path == path,
        ready(path, method, with_body, options).method == method,
        ready(path, method, with_body, options).with_body == with_body,
        ready(path, method, with_body, options).options == options,
        ready(path, method, with_body, options).phase is Ready,
{
}

/// The second attempt begins as the first one does: with the credentials that the client holds
/// once the callback for refreshed credentials has returned.
pub proof fn law_second_attempt_begins<R, I>(
    x: ExchangeView,
    c: ClientView<R, I>,
    clock: Readings,
    later: ClientView<R, I>,
    later_clock: Readings,
    access_token: Text,
    refresh_token: Text,
)
    requires
        x.phase matches Phase::TellingRefreshed { retrying, .. } && retrying,
    ensures
        once_told(x, c, Event::Notified, clock, later, later_clock) matches Some(
            (after, client, action),
        ) && {
            &&& x.options.no_credential ==> {
                &&& action == Action::<Text, Headers>::Send(plan(x, c, None))
                &&& after.phase == (Phase::<Text>::Sent { second: true })
            }
            &&& !x.options.no_credential && !(c.tokens.access_token is Some
                && c.tokens.refresh_token is Some) ==> action == Action::<Text, Headers>::Finish(
                Err(ApiError::NoTokensAvailable),
            )
            &&& !x.options.no_credential && c.tokens.access_token == Some(access_token)
                && c.tokens.refresh_token == Some(refresh_token) ==> {
                let refresh_over = c.tokens.refresh_token_expires matches Some(limit) ==> at_or_after(
                    clock.refresh_now,
                    limit,
                );
                let access_over = c.tokens.access_token_expires matches Some(limit) ==> at_or_after(
                    clock.access_now,
                    limit,
                );
                if refresh_over {
                    action == Action::<Text, Headers>::Finish(Err(ApiError::RefreshTokenExpired))
                } else if access_over {
                    &&& action == (Action::<Text, Headers>::PostRefresh {
                        url: c.config.base_url + "/api/v4"@ + "/session/token/refresh"@,
                        refresh_token,
                    })
                    &&& after.phase == (Phase::<Text>::Refreshing { second: true, retrying: false })
                } else {
                    &&& action == Action::<Text, Headers>::Send(plan(x, c, Some(access_token)))
                    &&& after.phase == (Phase::<Text>::Sent { second: true })
                }
            }
        },
{
}

/// Whether anyone is told of refreshed credentials makes no difference to what happens then, as
/// long as the callback leaves the client and the clock as they are.
pub proof fn law_telling_of_refresh_changes_nothing<R, I>(
    x: ExchangeView,
    c: ClientView<R, I>,
    callback: R,
    token: Token<Text>,
    message: Text,
    token_expired: bool,
    clock: Readings,
)
    requires
        x.phase is Refreshing,
        token_verdict(token.access_token) is Ok,
        c.on_credential_refreshed is None,
    ensures
        ({
            let e = Event::Refreshed(
                RefreshReply { code: 0, message, token_expired, token: Some(token) },
            );
            let telling = ClientView { on_credential_refreshed: Some(callback), ..c };
            let quiet = next(x, c, e, clock);
            let first = next(x, telling, e, clock);
            &&& first matches Some((waiting, held, action))
            &&& action == Action::<Text, Headers>::NotifyRefreshed(token)
            &&& next(waiting, held, Event::Notified, clock) matches Some((after, _, then))
            &&& quiet matches Some((quiet_after, _, quiet_action))
            &&& then == quiet_action
            &&& after == quiet_after
        }),
{
}

/// Whether anyone is told of invalid credentials makes no difference to what happens then, as long
/// as the callback leaves the client as it is.
pub proof fn law_telling_of_invalid_changes_nothing<R, I>(
    x: ExchangeView,
    c: ClientView<R, I>,
    callback: I,
    e: Event<Text>,
    clock: Readings,
)
    requires
        c.on_credential_invalid is None,
        !(x.phase is TellingInvalid),
        e is Start || e is Parsed || (e matches Event::Refreshed(reply) && reply.code != 0),
        next(x, c, e, clock) is Some,
    ensures
        ({
            let telling = ClientView { on_credential_invalid: Some(callback), ..c };
            &&& once_told(x, telling, e, clock, telling, clock) matches Some((after, _, action))
            &&& next(x, c, e, clock) matches Some((quiet_after, _, quiet_action))
            &&& action == quiet_action
            &&& after == quiet_after
        }),
{
}


} // verus!

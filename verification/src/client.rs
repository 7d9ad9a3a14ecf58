//! The state of an API client: its configuration, tokens, purchase ticket and callbacks.

use crate::config::{ClientConfig, ConfigView};
use crate::error::ApiError;
use crate::jwt::{says, token_verdict, validate_jwt_scopes};
use crate::text::{concat3, optional, Text};
use crate::time::{is_clock_time, read_clock, read_off_clock, Timestamp, LAST_SECOND};
use crate::tokens::{
    arrived, at_or_after, decision, empty_store, installed_as_stated, Token, TokenDecision,
    TokenStore,
};
use vstd::prelude::*;

verus! {

/// What the paths of the API begin with.
pub const API_PREFIX: &'static str = "/api/v4";

/// Main Cloudreve API client, without its connection. `R` is what is called when credentials were
/// refreshed, `I` what is called when they turn out to be invalid.
pub struct Client<R, I> {
    pub config: ClientConfig,
    pub tokens: TokenStore<String>,
    pub purchase_ticket: Option<String>,
    pub on_credential_refreshed: Option<R>,
    pub on_credential_invalid: Option<I>,
}

/// A client as its contracts see it.
#[verifier::ext_equal]
#[verifier::reject_recursive_types(R)]
#[verifier::reject_recursive_types(I)]
pub struct ClientView<R, I> {
    pub config: ConfigView,
    pub tokens: TokenStore<Text>,
    pub purchase_ticket: Option<Text>,
    pub on_credential_refreshed: Option<R>,
    pub on_credential_invalid: Option<I>,
}

impl<R, I> View for Client<R, I> {
    type V = ClientView<R, I>;

    open spec fn view(&self) -> ClientView<R, I> {
        ClientView {
            config: self.config@,
            tokens: self.tokens@,
            purchase_ticket: optional(self.purchase_ticket),
            on_credential_refreshed: self.on_credential_refreshed,
            on_credential_invalid: self.on_credential_invalid,
        }
    }
}

/// The full URL of an API endpoint.
pub open spec fn endpoint(config: ConfigView, path: Text) -> Text {
    config.base_url + API_PREFIX@ + path
}

/// Whether tokens set at the given times expire within chrono's range: the access token after an
/// hour, the refresh token after seven days.
pub open spec fn lifetimes_fit(access_now: Timestamp, refresh_now: Timestamp) -> bool {
    access_now.secs + 3600 <= LAST_SECOND && refresh_now.secs + 604_800 <= LAST_SECOND
}

/// Whether a client holds tokens that arrived at readings of the machine's clock, or, where their
/// lifetimes leave chrono's range, is unchanged.
pub open spec fn tokens_set<R, I>(
    before: ClientView<R, I>,
    after: ClientView<R, I>,
    access_token: Text,
    refresh_token: Text,
    set: bool,
) -> bool {
    exists|access_now: Timestamp, refresh_now: Timestamp|
        read_off_clock(access_now) && read_off_clock(refresh_now) && #[trigger] tokens_set_at(
            before,
            after,
            access_token,
            refresh_token,
            access_now,
            refresh_now,
            set,
        )
}

/// Whether a client holds tokens that arrived at the given times, or, where their lifetimes
/// leave chrono's range, is unchanged.
pub open spec fn tokens_set_at<R, I>(
    before: ClientView<R, I>,
    after: ClientView<R, I>,
    access_token: Text,
    refresh_token: Text,
    access_now: Timestamp,
    refresh_now: Timestamp,
    set: bool,
) -> bool {
    &&& is_clock_time(access_now)
    &&& is_clock_time(refresh_now)
    &&& set == lifetimes_fit(access_now, refresh_now)
    &&& after == if set {
        ClientView {
            tokens: arrived(access_token, refresh_token, access_now, refresh_now),
            ..before
        }
    } else {
        before
    }
}

/// Whether a decision is that of readings of the machine's clock.
pub open spec fn decided_by_clock(s: TokenStore<Text>, res: TokenDecision<Text>) -> bool {
    exists|refresh_now: Timestamp, access_now: Timestamp|
        read_off_clock(refresh_now) && read_off_clock(access_now) && is_clock_time(refresh_now)
            && is_clock_time(access_now) && res == #[trigger] decision(
            s,
            refresh_now,
            access_now,
        )
}

impl<R, I> Client<R, I> {
    /// A client with the given configuration, without tokens, ticket and callbacks.
    pub fn new(config: ClientConfig) -> (client: Self)
        ensures
            client@ == (ClientView::<R, I> {
                config: config@,
                tokens: empty_store(),
                purchase_ticket: None,
                on_credential_refreshed: None,
                on_credential_invalid: None,
            }),
    {
        Client {
            config,
            tokens: TokenStore::new(),
            purchase_ticket: None,
            on_credential_refreshed: None,
            on_credential_invalid: None,
        }
    }

    /// Sets what is called when credentials are refreshed.
    pub fn set_on_credential_refreshed(&mut self, callback: R)
        ensures
            final(self)@ == (ClientView {
                on_credential_refreshed: Some(callback),
                ..old(self)@
            }),
    {
        self.on_credential_refreshed = Some(callback);
    }

    /// Has nothing called any more when credentials are refreshed.
    pub fn clear_on_credential_refreshed(&mut self)
        ensures
            final(self)@ == (ClientView { on_credential_refreshed: None, ..old(self)@ }),
    {
        self.on_credential_refreshed = None;
    }

    /// Sets what is called when credentials are invalid or expired.
    pub fn set_on_credential_invalid(&mut self, callback: I)
        ensures
            final(self)@ == (ClientView { on_credential_invalid: Some(callback), ..old(self)@ }),
    {
        self.on_credential_invalid = Some(callback);
    }

    /// Has nothing called any more when credentials are invalid or expired.
    pub fn clear_on_credential_invalid(&mut self)
        ensures
            final(self)@ == (ClientView { on_credential_invalid: None, ..old(self)@ }),
    {
        self.on_credential_invalid = None;
    }

    /// Sets authentication tokens that arrived at the given times. Where these are so late that
    /// the tokens would expire beyond chrono's range, nothing is set, and the answer is `false`.
    pub fn set_tokens_at(
        &mut self,
        access_token: String,
        refresh_token: String,
        access_now: Timestamp,
        refresh_now: Timestamp,
    ) -> (set: bool)
        requires
            is_clock_time(access_now),
            is_clock_time(refresh_now),
        ensures
            tokens_set_at(
                old(self)@,
                final(self)@,
                access_token@,
                refresh_token@,
                access_now,
                refresh_now,
                set,
            ),
    {
        let set = access_now.secs <= LAST_SECOND - 3600 && refresh_now.secs <= LAST_SECOND
            - 604_800;
        if set {
            self.tokens.arrive(access_token, refresh_token, access_now, refresh_now);
        }
        set
    }

    /// Sets authentication tokens that arrive now. Where the clock stands so late that they
    /// would expire beyond chrono's range, nothing is set, and the answer is `false`.
    pub fn set_tokens(&mut self, access_token: String, refresh_token: String) -> (set: bool)
        ensures
            tokens_set(old(self)@, final(self)@, access_token@, refresh_token@, set),
    {
        let access_now = read_clock();
        let refresh_now = read_clock();
        self.set_tokens_at(access_token, refresh_token, access_now, refresh_now)
    }

    /// Sets tokens from a token response with explicit expiration times, once the access token
    /// is found to be a JWT with scopes.
    pub fn set_tokens_with_expiry(&mut self, token: &Token<String>) -> (res: Result<
        (),
        ApiError<String>,
    >)
        ensures
            says(res, token_verdict(token@.access_token)),
            final(self)@ == if res is Ok {
                ClientView { tokens: installed_as_stated(old(self)@.tokens, token@), ..old(self)@ }
            } else {
                old(self)@
            },
    {
        match validate_jwt_scopes(token.access_token.as_str()) {
            Ok(()) => {
                self.tokens.install_as_stated(token);
                Ok(())
            },
            Err(error) => Err(error),
        }
    }

    /// Clears all authentication tokens.
    pub fn clear_tokens(&mut self)
        ensures
            final(self)@ == (ClientView { tokens: empty_store(), ..old(self)@ }),
    {
        self.tokens = TokenStore::new();
    }

    /// Sets the purchase ticket for subsequent requests.
    pub fn set_purchase_ticket(&mut self, ticket: Option<String>)
        ensures
            final(self)@ == (ClientView { purchase_ticket: optional(ticket), ..old(self)@ }),
    {
        self.purchase_ticket = ticket;
    }

    /// How a request is to be authenticated now.
    pub fn get_access_token(&self) -> (res: TokenDecision<String>)
        ensures
            decided_by_clock(self@.tokens, res@),
    {
        let refresh_now = read_clock();
        let access_now = read_clock();
        self.tokens.decide_at(refresh_now, access_now)
    }

    /// Builds the full URL for an API endpoint.
    pub fn build_url(&self, path: &str) -> (url: String)
        ensures
            url@ == endpoint(self@.config, path@),
    {
        concat3(self.config.base_url.as_str(), API_PREFIX, path)
    }
}

/// The URL of an endpoint is the base URL, then the prefix of the API, then the path, each as it
/// is.
pub proof fn law_endpoint_has_its_parts(config: ConfigView, path: Text)
    ensures
        endpoint(config, path).len() == config.base_url.len() + 7 + path.len(),
        endpoint(config, path).take(config.base_url.len() as int) == config.base_url,
        endpoint(config, path).skip(config.base_url.len() as int + 7) == path,
        endpoint(config, path).subrange(
            config.base_url.len() as int,
            config.base_url.len() as int + 7,
        ) == seq!['/', 'a', 'p', 'i', '/', 'v', '4'],
{
    reveal_strlit("/api/v4");
    assert(API_PREFIX@ =~= seq!['/', 'a', 'p', 'i', '/', 'v', '4']);
    assert(endpoint(config, path).take(config.base_url.len() as int) =~= config.base_url);
    assert(endpoint(config, path).skip(config.base_url.len() as int + 7) =~= path);
    assert(endpoint(config, path).subrange(
        config.base_url.len() as int,
        config.base_url.len() as int + 7,
    ) =~= API_PREFIX@);
}

/// Tokens are set unless one of them would outlast the last second of time; then they are held
/// until an hour and seven days after their readings, and nothing else of the client changes.
/// Where they are not set, nothing changes at all.
pub proof fn law_set_tokens_are_held<R, I>(
    before: ClientView<R, I>,
    after: ClientView<R, I>,
    access_token: Text,
    refresh_token: Text,
    access_now: Timestamp,
    refresh_now: Timestamp,
    set: bool,
)
    requires
        tokens_set_at(before, after, access_token, refresh_token, access_now, refresh_now, set),
    ensures
        set <==> access_now.secs + 60 * 60 <= LAST_SECOND && refresh_now.secs + 7 * 24 * 60 * 60
            <= LAST_SECOND,
        !set ==> after == before,
        set ==> {
            &&& after == (ClientView { tokens: after.tokens, ..before })
            &&& after.tokens.access_token == Some(access_token)
            &&& after.tokens.refresh_token == Some(refresh_token)
            &&& after.tokens.access_token_expires == Some(
                Timestamp { secs: (access_now.secs + 3600) as i64, nanos: access_now.nanos },
            )
            &&& after.tokens.refresh_token_expires == Some(
                Timestamp { secs: (refresh_now.secs + 604_800) as i64, nanos: refresh_now.nanos },
            )
        },
{
}

/// The tokens that are set expire counted from readings of the machine's clock.
pub proof fn law_tokens_are_set_by_clock<R, I>(
    before: ClientView<R, I>,
    after: ClientView<R, I>,
    access_token: Text,
    refresh_token: Text,
)
    requires
        tokens_set(before, after, access_token, refresh_token, true),
    ensures
        after.tokens.access_token_expires matches Some(limit) && read_off_clock(
            Timestamp { secs: (limit.secs - 3600) as i64, nanos: limit.nanos },
        ),
        after.tokens.refresh_token_expires matches Some(limit) && read_off_clock(
            Timestamp { secs: (limit.secs - 604_800) as i64, nanos: limit.nanos },
        ),
{
}

/// An access token whose expiry every reading of the machine's clock has reached is never used.
pub proof fn law_expired_token_is_not_used(
    s: TokenStore<Text>,
    res: TokenDecision<Text>,
    limit: Timestamp,
)
    requires
        decided_by_clock(s, res),
        s.access_token_expires == Some(limit),
        forall|now: Timestamp| #[trigger] read_off_clock(now) ==> at_or_after(now, limit),
    ensures
        !(res is Use),
{
}


} // verus!

//! Authentication tokens and when they expire.

use crate::text::{optional, Text};
use crate::time::{
    add_days, add_hours, is_clock_time, later, parse_rfc3339, reaches, read_clock, read_off_clock,
    rfc3339_time, Timestamp, LAST_SECOND,
};
use vstd::prelude::*;

verus! {

/// The tokens that the server hands out, with the times at which they expire in RFC 3339.
#[derive(Debug)]
pub struct Token<T> {
    pub access_token: T,
    pub refresh_token: T,
    pub access_expires: T,
    pub refresh_expires: T,
}

impl View for Token<String> {
    type V = Token<Text>;

    open spec fn view(&self) -> Token<Text> {
        Token {
            access_token: self.access_token@,
            refresh_token: self.refresh_token@,
            access_expires: self.access_expires@,
            refresh_expires: self.refresh_expires@,
        }
    }
}

impl Token<String> {
    /// A copy of the tokens.
    pub fn duplicate(&self) -> (token: Self)
        ensures
            token@ == self@,
    {
        Token {
            access_token: self.access_token.clone(),
            refresh_token: self.refresh_token.clone(),
            access_expires: self.access_expires.clone(),
            refresh_expires: self.refresh_expires.clone(),
        }
    }
}

/// Token storage with expiration tracking.
#[derive(Debug)]
pub struct TokenStore<T> {
    pub access_token: Option<T>,
    pub refresh_token: Option<T>,
    pub access_token_expires: Option<Timestamp>,
    pub refresh_token_expires: Option<Timestamp>,
}

impl View for TokenStore<String> {
    type V = TokenStore<Text>;

    open spec fn view(&self) -> TokenStore<Text> {
        TokenStore {
            access_token: optional(self.access_token),
            refresh_token: optional(self.refresh_token),
            access_token_expires: self.access_token_expires,
            refresh_token_expires: self.refresh_token_expires,
        }
    }
}

/// How a request is to be authenticated.
#[derive(Debug)]
pub enum TokenDecision<T> {
    /// There are no tokens.
    NoTokens,
    /// The refresh token has expired.
    RefreshExpired,
    /// The access token can be used.
    Use(T),
    /// The access token is to be refreshed with this refresh token.
    Refresh(T),
}

impl View for TokenDecision<String> {
    type V = TokenDecision<Text>;

    open spec fn view(&self) -> TokenDecision<Text> {
        match *self {
            TokenDecision::NoTokens => TokenDecision::NoTokens,
            TokenDecision::RefreshExpired => TokenDecision::RefreshExpired,
            TokenDecision::Use(token) => TokenDecision::Use(token@),
            TokenDecision::Refresh(token) => TokenDecision::Refresh(token@),
        }
    }
}

/// A store that holds nothing.
pub open spec fn empty_store() -> TokenStore<Text> {
    TokenStore {
        access_token: None,
        refresh_token: None,
        access_token_expires: None,
        refresh_token_expires: None,
    }
}

/// Whether a time limit is over at `now`; one that is not known is.
pub open spec fn expired(limit: Option<Timestamp>, now: Timestamp) -> bool {
    match limit {
        Some(limit) => reaches(now, limit),
        None => true,
    }
}

/// Whether an expiry check gave the answer of a reading of the machine's clock.
pub open spec fn expired_by_clock(limit: Option<Timestamp>, answer: bool) -> bool {
    exists|now: Timestamp|
        read_off_clock(now) && is_clock_time(now) && #[trigger] expired(limit, now) == answer
}

/// Whether both tokens are there.
pub open spec fn has_both(s: TokenStore<Text>) -> bool {
    s.access_token is Some && s.refresh_token is Some
}

/// How a request is authenticated from a store, when the refresh token is judged at
/// `refresh_now` and the access token at `access_now`.
pub open spec fn decision(
    s: TokenStore<Text>,
    refresh_now: Timestamp,
    access_now: Timestamp,
) -> TokenDecision<Text> {
    match (s.access_token, s.refresh_token) {
        (Some(access_token), Some(refresh_token)) => if expired(
            s.refresh_token_expires,
            refresh_now,
        ) {
            TokenDecision::RefreshExpired
        } else if !expired(s.access_token_expires, access_now) {
            TokenDecision::Use(access_token)
        } else {
            TokenDecision::Refresh(refresh_token)
        },
        _ => TokenDecision::NoTokens,
    }
}

/// A store with tokens of which only the time of arrival is known: the access token lasts an
/// hour, the refresh token seven days.
pub open spec fn arrived(
    access_token: Text,
    refresh_token: Text,
    access_now: Timestamp,
    refresh_now: Timestamp,
) -> TokenStore<Text> {
    TokenStore {
        access_token: Some(access_token),
        refresh_token: Some(refresh_token),
        access_token_expires: Some(later(access_now, 3600)),
        refresh_token_expires: Some(later(refresh_now, 604_800)),
    }
}

/// A store with new tokens; an expiry that could not be read stays what it was.
pub open spec fn installed(
    s: TokenStore<Text>,
    token: Token<Text>,
    access_expires: Option<Timestamp>,
    refresh_expires: Option<Timestamp>,
) -> TokenStore<Text> {
    TokenStore {
        access_token: Some(token.access_token),
        refresh_token: Some(token.refresh_token),
        access_token_expires: if access_expires is Some {
            access_expires
        } else {
            s.access_token_expires
        },
        refresh_token_expires: if refresh_expires is Some {
            refresh_expires
        } else {
            s.refresh_token_expires
        },
    }
}

/// A store with new tokens and the expiries that they state.
pub open spec fn installed_as_stated(s: TokenStore<Text>, token: Token<Text>) -> TokenStore<Text> {
    installed(
        s,
        token,
        rfc3339_time(token.access_expires),
        rfc3339_time(token.refresh_expires),
    )
}

fn is_over(limit: Option<Timestamp>, now: Timestamp) -> (res: bool)
    ensures
        res == expired(limit, now),
{
    match limit {
        Some(limit) => now.has_reached(limit),
        None => true,
    }
}

impl TokenStore<String> {
    /// A store that holds nothing.
    pub fn new() -> (store: Self)
        ensures
            store@ == empty_store(),
    {
        TokenStore {
            access_token: None,
            refresh_token: None,
            access_token_expires: None,
            refresh_token_expires: None,
        }
    }

    /// Whether the access token has expired at `now`.
    pub fn is_access_token_expired_at(&self, now: Timestamp) -> (res: bool)
        ensures
            res == expired(self@.access_token_expires, now),
    {
        is_over(self.access_token_expires, now)
    }

    /// Whether the refresh token has expired at `now`.
    pub fn is_refresh_token_expired_at(&self, now: Timestamp) -> (res: bool)
        ensures
            res == expired(self@.refresh_token_expires, now),
    {
        is_over(self.refresh_token_expires, now)
    }

    /// Whether the access token has expired.
    pub fn is_access_token_expired(&self) -> (res: bool)
        ensures
            expired_by_clock(self@.access_token_expires, res),
    {
        self.is_access_token_expired_at(read_clock())
    }

    /// Whether the refresh token has expired.
    pub fn is_refresh_token_expired(&self) -> (res: bool)
        ensures
            expired_by_clock(self@.refresh_token_expires, res),
    {
        self.is_refresh_token_expired_at(read_clock())
    }

    /// Whether both tokens are there.
    pub fn has_tokens(&self) -> (res: bool)
        ensures
            res == has_both(self@),
    {
        self.access_token.is_some() && self.refresh_token.is_some()
    }

    /// How a request is to be authenticated, when the refresh token is judged at `refresh_now`
    /// and the access token at `access_now`.
    pub fn decide_at(&self, refresh_now: Timestamp, access_now: Timestamp) -> (res: TokenDecision<
        String,
    >)
        ensures
            res@ == decision(self@, refresh_now, access_now),
    {
        match (&self.access_token, &self.refresh_token) {
            (Some(access_token), Some(refresh_token)) => {
                if self.is_refresh_token_expired_at(refresh_now) {
                    TokenDecision::RefreshExpired
                } else if !self.is_access_token_expired_at(access_now) {
                    TokenDecision::Use(access_token.clone())
                } else {
                    TokenDecision::Refresh(refresh_token.clone())
                }
            },
            _ => TokenDecision::NoTokens,
        }
    }

    /// Takes tokens that arrived at the given times.
    pub fn arrive(
        &mut self,
        access_token: String,
        refresh_token: String,
        access_now: Timestamp,
        refresh_now: Timestamp,
    )
        requires
            is_clock_time(access_now),
            is_clock_time(refresh_now),
            access_now.secs + 3600 <= LAST_SECOND,
            refresh_now.secs + 604_800 <= LAST_SECOND,
        ensures
            final(self)@ == arrived(access_token@, refresh_token@, access_now, refresh_now),
    {
        self.access_token = Some(access_token);
        self.refresh_token = Some(refresh_token);
        self.access_token_expires = Some(add_hours(access_now, 1));
        self.refresh_token_expires = Some(add_days(refresh_now, 7));
    }

    /// Takes new tokens with the expiries that could be read.
    pub fn install(
        &mut self,
        token: &Token<String>,
        access_expires: Option<Timestamp>,
        refresh_expires: Option<Timestamp>,
    )
        ensures
            final(self)@ == installed(old(self)@, token@, access_expires, refresh_expires),
    {
        self.access_token = Some(token.access_token.clone());
        self.refresh_token = Some(token.refresh_token.clone());
        if access_expires.is_some() {
            self.access_token_expires = access_expires;
        }
        if refresh_expires.is_some() {
            self.refresh_token_expires = refresh_expires;
        }
    }

    /// Takes new tokens with the expiries that they state.
    pub fn install_as_stated(&mut self, token: &Token<String>)
        ensures
            final(self)@ == installed_as_stated(old(self)@, token@),
    {
        let access_expires = parse_rfc3339(token.access_expires.as_str());
        let refresh_expires = parse_rfc3339(token.refresh_expires.as_str());
        self.install(token, access_expires, refresh_expires);
    }
}

/// Tokens that have just been set authenticate with the access token until its hour is over,
/// then call for a refresh with the refresh token until its seven days are over, and then for
/// nothing.
pub proof fn law_set_tokens_are_used(
    access_token: Text,
    refresh_token: Text,
    access_set: Timestamp,
    refresh_set: Timestamp,
    refresh_now: Timestamp,
    access_now: Timestamp,
)
    requires
        is_clock_time(access_set),
        is_clock_time(refresh_set),
    ensures
        decision(
            arrived(access_token, refresh_token, access_set, refresh_set),
            refresh_now,
            access_now,
        ) == if reaches(refresh_now, later(refresh_set, 604_800)) {
            TokenDecision::RefreshExpired
        } else if !reaches(access_now, later(access_set, 3600)) {
            TokenDecision::Use(access_token)
        } else {
            TokenDecision::Refresh(refresh_token)
        },
{
}

/// Tokens with stated expiries that can be read authenticate with the access token before its
/// expiry, and call for a refresh from then on, before that of the refresh token; what the store
/// held before does not matter.
pub proof fn law_stated_expiry_decides(
    s: TokenStore<Text>,
    token: Token<Text>,
    access_expires: Timestamp,
    refresh_expires: Timestamp,
    refresh_now: Timestamp,
    access_now: Timestamp,
)
    requires
        rfc3339_time(token.access_expires) == Some(access_expires),
        rfc3339_time(token.refresh_expires) == Some(refresh_expires),
    ensures
        decision(installed_as_stated(s, token), refresh_now, access_now) == if reaches(
            refresh_now,
            refresh_expires,
        ) {
            TokenDecision::RefreshExpired
        } else if !reaches(access_now, access_expires) {
            TokenDecision::Use(token.access_token)
        } else {
            TokenDecision::Refresh(token.refresh_token)
        },
{
}

/// A store without both tokens authenticates nothing; an empty one in particular.
pub proof fn law_no_tokens_no_access(
    s: TokenStore<Text>,
    refresh_now: Timestamp,
    access_now: Timestamp,
)
    ensures
        decision(s, refresh_now, access_now) is NoTokens <==> !has_both(s),
        !has_both(empty_store()),
{
}

/// A token that has expired does not become valid again as time goes on.
pub proof fn law_expiry_is_final(limit: Option<Timestamp>, now: Timestamp, then: Timestamp)
    requires
        expired(limit, now),
        reaches(then, now),
    ensures
        expired(limit, then),
{
}

/// Whether a time is at or behind another, second by second and within a second nanosecond by
/// nanosecond.
pub open spec fn at_or_after(now: Timestamp, limit: Timestamp) -> bool {
    now.secs * 0x1_0000_0000 + now.nanos >= limit.secs * 0x1_0000_0000 + limit.nanos
}

/// The access token is used exactly while both tokens are there and neither has reached its
/// expiry; it is refreshed exactly when it has reached its own, or has none, and the refresh token
/// has not; and the tokens are the ones that the store holds.
pub proof fn law_expiries_decide(
    s: TokenStore<Text>,
    refresh_now: Timestamp,
    access_now: Timestamp,
    access_token: Text,
    refresh_token: Text,
)
    ensures
        decision(s, refresh_now, access_now) == TokenDecision::Use(access_token) <==> {
            &&& s.access_token == Some(access_token)
            &&& s.refresh_token is Some
            &&& s.refresh_token_expires matches Some(limit)
            &&& !at_or_after(refresh_now, limit)
            &&& s.access_token_expires matches Some(limit)
            &&& !at_or_after(access_now, limit)
        },
        decision(s, refresh_now, access_now) == TokenDecision::Refresh(refresh_token) <==> {
            &&& s.refresh_token == Some(refresh_token)
            &&& s.access_token is Some
            &&& s.refresh_token_expires matches Some(limit)
            &&& !at_or_after(refresh_now, limit)
            &&& s.access_token_expires matches Some(limit) ==> at_or_after(access_now, limit)
        },
        decision(s, refresh_now, access_now) is RefreshExpired <==> {
            &&& s.access_token is Some
            &&& s.refresh_token is Some
            &&& s.refresh_token_expires matches Some(limit) ==> at_or_after(refresh_now, limit)
        },
{
}

/// An expiry that the check is asked about is over exactly at its time and from then on, and one
/// that is not known is over.
pub proof fn law_expired_from_limit_on(limit: Timestamp, now: Timestamp)
    ensures
        expired(Some(limit), now) <==> at_or_after(now, limit),
        expired(None, now),
{
}

/// New tokens replace the old ones, each with its stated expiry, or with the one that the store
/// held where that cannot be read.
pub proof fn law_new_tokens_are_held(s: TokenStore<Text>, token: Token<Text>)
    ensures
        installed_as_stated(s, token).access_token == Some(token.access_token),
        installed_as_stated(s, token).refresh_token == Some(token.refresh_token),
        rfc3339_time(token.access_expires) is Some ==> installed_as_stated(
            s,
            token,
        ).access_token_expires == rfc3339_time(token.access_expires),
        rfc3339_time(token.access_expires) is None ==> installed_as_stated(
            s,
            token,
        ).access_token_expires == s.access_token_expires,
        rfc3339_time(token.refresh_expires) is Some ==> installed_as_stated(
            s,
            token,
        ).refresh_token_expires == rfc3339_time(token.refresh_expires),
        rfc3339_time(token.refresh_expires) is None ==> installed_as_stated(
            s,
            token,
        ).refresh_token_expires == s.refresh_token_expires,
{
}

/// Tokens that arrive are held, the access token for an hour and the refresh token for seven days
/// from when they arrived.
pub proof fn law_arrived_tokens_are_held(
    access_token: Text,
    refresh_token: Text,
    access_now: Timestamp,
    refresh_now: Timestamp,
)
    requires
        is_clock_time(access_now),
        is_clock_time(refresh_now),
    ensures
        arrived(access_token, refresh_token, access_now, refresh_now).access_token == Some(
            access_token,
        ),
        arrived(access_token, refresh_token, access_now, refresh_now).refresh_token == Some(
            refresh_token,
        ),
        arrived(access_token, refresh_token, access_now, refresh_now).access_token_expires
            matches Some(limit) && limit.secs - access_now.secs == 60 * 60 && limit.nanos
            == access_now.nanos,
        arrived(access_token, refresh_token, access_now, refresh_now).refresh_token_expires
            matches Some(limit) && limit.secs - refresh_now.secs == 7 * 24 * 60 * 60 && limit.nanos
            == refresh_now.nanos,
{
}

/// A token whose expiry every reading of the machine's clock has reached is found to be expired,
/// and one whose expiry none has reached is not.
pub proof fn law_clock_finds_expired(limit: Timestamp, answer: bool)
    requires
        expired_by_clock(Some(limit), answer),
    ensures
        (forall|now: Timestamp| #[trigger] read_off_clock(now) ==> at_or_after(now, limit))
            ==> answer,
        (forall|now: Timestamp| #[trigger] read_off_clock(now) ==> !at_or_after(now, limit))
            ==> !answer,
{
}


} // verus!

//! How a client is set up, and how a single request may deviate from that.

use crate::text::optional;
use vstd::prelude::*;

verus! {

/// What the headers of the API begin with.
pub const CR_HEADER_PREFIX: &'static str = "X-Cr-";

/// Client configuration.
#[derive(Debug, Clone)]
pub struct ClientConfig {
    /// Base URL of the Cloudreve instance (e.g., "https://example.com").
    pub base_url: String,
    /// Timeout for requests in seconds.
    pub timeout_seconds: u64,
    /// Client ID.
    pub client_id: String,
    /// User agent string for HTTP requests.
    pub user_agent: Option<String>,
}

/// A configuration as its contracts see it.
#[verifier::ext_equal]
pub struct ConfigView {
    pub base_url: Seq<char>,
    pub timeout_seconds: u64,
    pub client_id: Seq<char>,
    pub user_agent: Option<Seq<char>>,
}

impl View for ClientConfig {
    type V = ConfigView;

    open spec fn view(&self) -> ConfigView {
        ConfigView {
            base_url: self.base_url@,
            timeout_seconds: self.timeout_seconds,
            client_id: self.client_id@,
            user_agent: optional(self.user_agent),
        }
    }
}

impl ClientConfig {
    /// A configuration with the given base URL: a timeout of a minute, no client ID and no user
    /// agent.
    pub fn new(base_url: &str) -> (config: Self)
        ensures
            config@ == (ConfigView {
                base_url: base_url@,
                timeout_seconds: 60,
                client_id: Seq::empty(),
                user_agent: None,
            }),
    {
        ClientConfig {
            base_url: base_url.to_owned(),
            timeout_seconds: 60,
            client_id: String::new(),
            user_agent: None,
        }
    }

    /// Sets the request timeout.
    pub fn with_timeout(self, timeout_seconds: u64) -> (config: Self)
        ensures
            config@ == (ConfigView { timeout_seconds, ..self@ }),
    {
        ClientConfig { timeout_seconds, ..self }
    }

    /// Sets the client ID.
    pub fn with_client_id(self, client_id: &str) -> (config: Self)
        ensures
            config@ == (ConfigView { client_id: client_id@, ..self@ }),
    {
        ClientConfig { client_id: client_id.to_owned(), ..self }
    }

    /// Sets the user agent string.
    pub fn with_user_agent(self, user_agent: &str) -> (config: Self)
        ensures
            config@ == (ConfigView { user_agent: Some(user_agent@), ..self@ }),
    {
        ClientConfig { user_agent: Some(user_agent.to_owned()), ..self }
    }
}

/// Request options for customizing API calls.
#[derive(Debug, Clone, Copy, PartialEq, Eq, Structural)]
pub struct RequestOptions {
    /// Don't send authentication credentials.
    pub no_credential: bool,
    /// Send the purchase ticket.
    pub with_purchase_ticket: bool,
    /// Skip batch error handling (return first error). Carried for the caller: no request of this
    /// client is decided by it.
    pub skip_batch_error: bool,
    /// Skip lock conflict handling.
    pub skip_lock_conflict: bool,
}

impl Default for RequestOptions {
    fn default() -> (options: Self)
        ensures
            options == (RequestOptions {
                no_credential: false,
                with_purchase_ticket: false,
                skip_batch_error: false,
                skip_lock_conflict: false,
            }),
    {
        RequestOptions {
            no_credential: false,
            with_purchase_ticket: false,
            skip_batch_error: false,
            skip_lock_conflict: false,
        }
    }
}

impl RequestOptions {
    /// Options that deviate in nothing.
    pub fn new() -> (options: Self)
        ensures
            options == (RequestOptions {
                no_credential: false,
                with_purchase_ticket: false,
                skip_batch_error: false,
                skip_lock_conflict: false,
            }),
    {
        RequestOptions::default()
    }

    /// Leaves the credentials out.
    pub fn no_credential(self) -> (options: Self)
        ensures
            options == (RequestOptions { no_credential: true, ..self }),
    {
        RequestOptions { no_credential: true, ..self }
    }

    /// Sends the purchase ticket.
    pub fn with_purchase_ticket(self) -> (options: Self)
        ensures
            options == (RequestOptions { with_purchase_ticket: true, ..self }),
    {
        RequestOptions { with_purchase_ticket: true, ..self }
    }

    /// Asks to skip batch error handling, for whoever reads the option; no request of this client
    /// is decided by it.
    pub fn skip_batch_error(self) -> (options: Self)
        ensures
            options == (RequestOptions { skip_batch_error: true, ..self }),
    {
        RequestOptions { skip_batch_error: true, ..self }
    }

    /// Skips lock conflict handling.
    pub fn skip_lock_conflict(self) -> (options: Self)
        ensures
            options == (RequestOptions { skip_lock_conflict: true, ..self }),
    {
        RequestOptions { skip_lock_conflict: true, ..self }
    }
}

} // verus!

//! External agent gateway client boundary.
//!
//! This module is the integration point for bot-to-agent calls: turns go
//! through the gateway `/message` contract. Sending a request over HTTP is
//! the application's part; the client here holds the endpoint and the HTTP
//! client handle.

use vstd::prelude::*;
use crate::text::{TrimClass, chars_of, concat2, string_of, trim, trim_chars, trim_end, trim_end_chars};

verus! {

#[verifier::external_type_specification]
#[verifier::external_body]
pub struct ExReqwestClient(reqwest::Client);

/// Cloning a reqwest client (`<reqwest::Client as Clone>::clone`) hands
/// back another handle on the same connection pool. Nothing is stated of the
/// handle.
pub assume_specification[ <reqwest::Client as Clone>::clone ](client: &reqwest::Client) -> reqwest::Client;

/// Request body for a gateway message turn.
#[derive(Debug, Clone, PartialEq, Eq)]
pub struct AgentGatewayMessageRequest {
    /// Conversation or channel session identifier.
    pub session_id: String,
    /// User message or channel message content.
    pub message: String,
}

impl AgentGatewayMessageRequest {
    /// Build a gateway request from session and message text.
    pub fn new(session_id: &str, message: &str) -> (r: Self)
        ensures
            r.session_id@ == session_id@,
            r.message@ == message@,
    {
        Self { session_id: String::from_str(session_id), message: String::from_str(message) }
    }
}

/// Response body returned by the external gateway.
#[derive(Debug, Clone, PartialEq, Eq)]
pub struct AgentGatewayMessageResponse {
    /// Assistant output returned by the gateway.
    pub response: String,
}

/// Error type for gateway client construction and calls.
#[derive(Debug, Clone, PartialEq, Eq)]
pub enum AgentGatewayError {
    /// The configured base URL is empty.
    InvalidBaseUrl,
    /// The gateway request failed.
    Request {
        /// Human-readable request failure.
        message: String,
    },
}

impl AgentGatewayError {
    /// The diagnostic text of the error (its `Display` form).
    pub fn describe(&self) -> (s: String)
        ensures
            s@ == match self {
                AgentGatewayError::InvalidBaseUrl => "agent gateway base URL is empty"@,
                AgentGatewayError::Request { message } => "agent gateway request failed: "@
                    + message@,
            },
    {
        match self {
            AgentGatewayError::InvalidBaseUrl => String::from_str("agent gateway base URL is empty"),
            AgentGatewayError::Request { message } => concat2(
                "agent gateway request failed: ",
                message.as_str(),
            ),
        }
    }
}

/// Builds a fresh HTTP client (`reqwest::Client::new`). Nothing is stated of
/// the handle. reqwest documents that this panics when a TLS backend cannot
/// be initialised or the resolver cannot load the system configuration; that
/// condition lies outside the program and is not stated here.
#[verifier::external_body]
fn new_http_client() -> reqwest::Client {
    reqwest::Client::new()
}

/// HTTP client for the external agent gateway.
#[derive(Debug, Clone)]
pub struct AgentGatewayClient {
    base_url: String,
    http: reqwest::Client,
}

/// The base URL a client keeps for `base_url`: without trailing slashes.
pub open spec fn gateway_base_url(base_url: Seq<char>) -> Seq<char> {
    trim_end(TrimClass::Slash, base_url)
}

/// Whether `base_url` is accepted: it holds something besides white space.
pub open spec fn gateway_base_url_valid(base_url: Seq<char>) -> bool {
    trim(TrimClass::Whitespace, base_url).len() > 0
}

impl AgentGatewayClient {
    /// The base URL the client sends to.
    pub closed spec fn base_url_view(&self) -> Seq<char> {
        self.base_url@
    }

    /// Build a gateway client from the service base URL.
    ///
    /// Returns [`AgentGatewayError::InvalidBaseUrl`] exactly when the
    /// provided URL is empty once white space is trimmed.
    pub fn new(base_url: &str) -> (r: Result<Self, AgentGatewayError>)
        ensures
            gateway_base_url_valid(base_url@) <==> r is Ok,
            match r {
                Ok(client) => client.base_url_view() == gateway_base_url(base_url@),
                Err(e) => e == AgentGatewayError::InvalidBaseUrl,
            },
    {
        let cs = chars_of(base_url);
        let trimmed = trim_chars(TrimClass::Whitespace, &cs);
        if trimmed.len() == 0 {
            return Err(AgentGatewayError::InvalidBaseUrl);
        }
        let kept = trim_end_chars(TrimClass::Slash, &cs);
        Ok(Self { base_url: string_of(&kept), http: new_http_client() })
    }

    /// Return the concrete `/message` endpoint used by this client.
    pub fn message_endpoint(&self) -> (url: String)
        ensures
            url@ == self.base_url_view() + "/message"@,
    {
        concat2(self.base_url.as_str(), "/message")
    }

    /// The HTTP client handle the client was built with.
    pub closed spec fn http_handle(&self) -> reqwest::Client {
        self.http
    }

    /// The HTTP client handle used to send requests.
    pub fn http_client(&self) -> (h: &reqwest::Client)
        ensures
            *h == self.http_handle(),
    {
        &self.http
    }
}

} // verus!

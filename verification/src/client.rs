//! Client configuration and response classification.
//!
//! The transport itself is an external collaborator; this module holds the
//! decisions around it: validating the builder's inputs into a usable
//! configuration, and classifying an HTTP response into the success body or
//! the API error condition.

use vstd::prelude::*;

use crate::error::{Result, ZenMoneyError};

verus! {

/// Returns the default base URL of the remote ledger service's API.
pub fn default_base_url() -> (r: &'static str)
    ensures
        r@ == "https://api.zenmoney.ru"@,
{
    "https://api.zenmoney.ru"
}

/// A validated client configuration: the access token and the base URL the
/// transport must use.
#[derive(Debug, Clone, PartialEq)]
pub struct ClientConfig {
    /// Bearer access token.
    pub token: String,
    /// API base URL.
    pub base_url: String,
}

/// Builder for a client configuration.
#[derive(Debug, Clone, PartialEq)]
pub struct ZenMoneyClientBuilder {
    /// Access token for API authentication.
    pub token: Option<String>,
    /// Base URL override (for testing against a mock server).
    pub base_url: Option<String>,
}

impl ZenMoneyClientBuilder {
    /// Creates a builder with nothing configured.
    pub fn new() -> (r: Self)
        ensures
            r.token is None,
            r.base_url is None,
    {
        ZenMoneyClientBuilder { token: None, base_url: None }
    }

    /// Sets the access token for API authentication.
    pub fn token(self, token: String) -> (r: Self)
        ensures
            r.token == Some(token),
            r.base_url == self.base_url,
    {
        ZenMoneyClientBuilder { token: Some(token), ..self }
    }

    /// Overrides the base URL (useful for testing with a mock server).
    pub fn base_url(self, url: String) -> (r: Self)
        ensures
            r.base_url == Some(url),
            r.token == self.token,
    {
        ZenMoneyClientBuilder { base_url: Some(url), ..self }
    }

    /// Validates the builder: a token is required; the base URL falls back
    /// to the service's default.
    pub fn build(self) -> (r: Result<ClientConfig>)
        ensures
            (r is Ok) <==> self.token is Some,
            self.token is None ==> r->Err_0 is TokenExpired,
            self.token is Some ==> {
                &&& r->Ok_0.token == self.token->0
                &&& match self.base_url {
                    Some(url) => r->Ok_0.base_url == url,
                    None => r->Ok_0.base_url@ == "https://api.zenmoney.ru"@,
                }
            },
    {
        let token = match self.token {
            Some(t) => t,
            None => {
                return Err(ZenMoneyError::TokenExpired);
            },
        };
        let base_url = match self.base_url {
            Some(url) => url,
            None => default_base_url().to_owned(),
        };
        Ok(ClientConfig { token, base_url })
    }
}

impl Default for ZenMoneyClientBuilder {
    /// A builder with nothing configured.
    fn default() -> (r: Self)
        ensures
            r.token is None,
            r.base_url is None,
    {
        ZenMoneyClientBuilder::new()
    }
}

/// Classifies the remote service's answer: a success status yields the body
/// for parsing; any other status is the API error condition carrying the
/// status code and the body as its message.
pub fn classify_response(status: u16, body: String) -> (r: Result<String>)
    ensures
        200 <= status < 300 ==> r == Ok::<String, ZenMoneyError>(body),
        !(200 <= status < 300) ==> r == Err::<String, ZenMoneyError>(
            ZenMoneyError::Api { status, message: body },
        ),
{
    if 200 <= status && status < 300 {
        Ok(body)
    } else {
        Err(ZenMoneyError::Api { status, message: body })
    }
}

} // verus!

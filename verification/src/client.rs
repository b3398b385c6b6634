//! The request pipeline: building an authenticated request from a method,
//! an endpoint path and an optional body, and mapping a response's status
//! and body text into a typed result or a typed error.
//!
//! Dispatching a prepared request over the network is I/O and is done by
//! the surrounding program; what is sent and how every possible response is
//! interpreted are verified here.

use vstd::prelude::*;
use crate::config::Config;
use crate::droplet::CreateDropletRequest;
use crate::droplet::create_droplet_json;
use crate::decimal::dec_of;
use crate::decimal::u32_to_decimal;
use crate::error::Error;
use crate::urls::resolve_url;
use crate::urls::url_join;
use crate::urls::url_parse_ok;

verus! {

/// The HTTP methods the pipeline issues.
#[derive(Clone, Copy, PartialEq, Eq, Structural, Debug)]
pub enum Method {
    Get,
    Post,
    Delete,
}

/// A fully built request, ready to be dispatched by a transport: the
/// resolved URL, both headers the pipeline attaches, and the serialized
/// body when there is one.
pub struct PreparedRequest {
    pub method: Method,
    pub url: String,
    pub authorization: String,
    pub content_type: String,
    pub body: Option<String>,
}

/// Whether an HTTP status code counts as success.
pub open spec fn is_success(status: u16) -> bool {
    200 <= status < 300
}

/// The first error message of the provider's structured error envelope,
/// when the text parses as one with at least one entry whose message is a
/// string. The result depends on the text alone.
pub uninterp spec fn envelope_message(body: Seq<char>) -> Option<Seq<char>>;

/// The message an API error carries: the envelope's first message when the
/// body parses as an envelope, else the raw body text.
pub open spec fn api_error_message(body: Seq<char>) -> Seq<char> {
    match envelope_message(body) {
        Some(m) => m,
        None => body,
    }
}

/// Relies on `serde_json::from_str` and `serde_json::Value` navigation:
/// extracts `errors[0].message` from the provider's error envelope.
#[verifier::external_body]
fn first_error_message(body: &str) -> (r: Option<String>)
    ensures
        (r matches Some(m) ==> envelope_message(body@) == Some(m@)),
        (r is None ==> envelope_message(body@) is None),
{
    let value: serde_json::Value = match serde_json::from_str(body) {
        Ok(v) => v,
        Err(_) => return None,
    };
    let message = value.get("errors")?.get(0)?.get("message")?.as_str()?;
    Some(message.to_string())
}

/// The endpoint path of a single droplet.
pub open spec fn droplet_path(id: u32) -> Seq<char> {
    "/v2/droplets/"@ + dec_of(id as nat)
}

/// Builds the endpoint path of a single droplet.
pub fn droplet_endpoint(id: u32) -> (r: String)
    ensures
        r@ == droplet_path(id),
{
    let mut r = String::from_str("/v2/droplets/");
    let digits = u32_to_decimal(id);
    r.append(digits.as_str());
    r
}

/// The client: a validated configuration, from which each resource
/// operation derives a single prepared request.
pub struct Client {
    pub config: Config,
}

impl Client {
    /// A client over a configuration, rejected exactly when the
    /// configuration is invalid.
    pub fn new(config: Config) -> (r: Result<Client, Error>)
        ensures
            r is Ok <==> config.token@.len() > 0 && url_parse_ok(config.base_url@),
            r matches Ok(c) ==> c.config.token@ == config.token@ && c.config.base_url@
                == config.base_url@,
            config.token@.len() == 0 ==> (r matches Err(e) && e is MissingToken),
            config.token@.len() > 0 && !url_parse_ok(config.base_url@) ==> (r matches Err(e) && (
            e matches Error::Config(m) && m@ == "Invalid base URL"@)),
    {
        match config.validate() {
            Ok(()) => Ok(Client { config }),
            Err(e) => Err(e),
        }
    }

    /// The configuration in use.
    pub fn config(&self) -> (r: &Config)
        ensures
            r.token@ == self.config.token@,
            r.base_url@ == self.config.base_url@,
    {
        &self.config
    }

    /// Replaces the configuration, rejected exactly when the new one is
    /// invalid; on rejection the old configuration stays in use.
    pub fn update_config(&mut self, config: Config) -> (r: Result<(), Error>)
        ensures
            r is Ok <==> config.token@.len() > 0 && url_parse_ok(config.base_url@),
            r is Ok ==> final(self).config.token@ == config.token@
                && final(self).config.base_url@ == config.base_url@,
            r is Err ==> *final(self) == *old(self),
            config.token@.len() == 0 ==> (r matches Err(e) && e is MissingToken),
            config.token@.len() > 0 && !url_parse_ok(config.base_url@) ==> (r matches Err(e) && (
            e matches Error::Config(m) && m@ == "Invalid base URL"@)),
    {
        match config.validate() {
            Ok(()) => {
                self.config = config;
                Ok(())
            },
            Err(e) => Err(e),
        }
    }

    /// Builds an authenticated request: resolves the endpoint against the
    /// base URL, attaches the bearer-token and content-type headers, and
    /// the serialized body when present. Fails exactly when the URL join
    /// fails.
    pub fn build_request(&self, method: Method, endpoint: &str, body: Option<String>) -> (r: Result<
        PreparedRequest,
        Error,
    >)
        ensures
            url_join(self.config.base_url@, endpoint@) matches Some(u) ==> (r matches Ok(p)
                && p.method == method && p.url@ == u && p.authorization@ == "Bearer "@
                + self.config.token@ && p.content_type@ == "application/json"@ && p.body == body),
            url_join(self.config.base_url@, endpoint@) is None ==> (r matches Err(e)
                && e is InvalidUrl),
    {
        match resolve_url(self.config.base_url.as_str(), endpoint) {
            Ok(url) => {
                let mut authorization = String::from_str("Bearer ");
                authorization.append(self.config.token.as_str());
                Ok(
                    PreparedRequest {
                        method,
                        url,
                        authorization,
                        content_type: String::from_str("application/json"),
                        body,
                    },
                )
            },
            Err(e) => Err(Error::InvalidUrl(e)),
        }
    }

    /// The account-info operation: `GET /v2/account`, no body.
    pub fn get_account_request(&self) -> (r: Result<PreparedRequest, Error>)
        ensures
            url_join(self.config.base_url@, "/v2/account"@) matches Some(u) ==> (r matches Ok(p)
                && p.method == Method::Get && p.url@ == u && p.authorization@ == "Bearer "@
                + self.config.token@ && p.content_type@ == "application/json"@ && p.body is None),
            url_join(self.config.base_url@, "/v2/account"@) is None ==> (r matches Err(e)
                && e is InvalidUrl),
    {
        self.build_request(Method::Get, "/v2/account", None)
    }

    /// The droplet-list operation: `GET /v2/droplets`, no body.
    pub fn list_droplets_request(&self) -> (r: Result<PreparedRequest, Error>)
        ensures
            url_join(self.config.base_url@, "/v2/droplets"@) matches Some(u) ==> (r matches Ok(p)
                && p.method == Method::Get && p.url@ == u && p.authorization@ == "Bearer "@
                + self.config.token@ && p.content_type@ == "application/json"@ && p.body is None),
            url_join(self.config.base_url@, "/v2/droplets"@) is None ==> (r matches Err(e)
                && e is InvalidUrl),
    {
        self.build_request(Method::Get, "/v2/droplets", None)
    }

    /// The single-droplet operation: `GET /v2/droplets/{id}`, no body.
    pub fn get_droplet_request(&self, id: u32) -> (r: Result<PreparedRequest, Error>)
        ensures
            url_join(self.config.base_url@, droplet_path(id)) matches Some(u) ==> (r matches Ok(p)
                && p.method == Method::Get && p.url@ == u && p.authorization@ == "Bearer "@
                + self.config.token@ && p.content_type@ == "application/json"@ && p.body is None),
            url_join(self.config.base_url@, droplet_path(id)) is None ==> (r matches Err(e)
                && e is InvalidUrl),
    {
        let endpoint = droplet_endpoint(id);
        self.build_request(Method::Get, endpoint.as_str(), None)
    }

    /// The droplet-creation operation: `POST /v2/droplets`, with the
    /// request serialized as the body.
    pub fn create_droplet_request(&self, req: &CreateDropletRequest) -> (r: Result<
        PreparedRequest,
        Error,
    >)
        ensures
            url_join(self.config.base_url@, "/v2/droplets"@) matches Some(u) ==> (r matches Ok(p)
                && p.method == Method::Post && p.url@ == u && p.authorization@ == "Bearer "@
                + self.config.token@ && p.content_type@ == "application/json"@ && (p.body
                matches Some(b) && b@ == create_droplet_json(*req))),
            url_join(self.config.base_url@, "/v2/droplets"@) is None ==> (r matches Err(e)
                && e is InvalidUrl),
    {
        let body = req.to_json();
        self.build_request(Method::Post, "/v2/droplets", Some(body))
    }

    /// The droplet-delete operation: `DELETE /v2/droplets/{id}`, no body.
    pub fn delete_droplet_request(&self, id: u32) -> (r: Result<PreparedRequest, Error>)
        ensures
            url_join(self.config.base_url@, droplet_path(id)) matches Some(u) ==> (r matches Ok(p)
                && p.method == Method::Delete && p.url@ == u && p.authorization@ == "Bearer "@
                + self.config.token@ && p.content_type@ == "application/json"@ && p.body is None),
            url_join(self.config.base_url@, droplet_path(id)) is None ==> (r matches Err(e)
                && e is InvalidUrl),
    {
        let endpoint = droplet_endpoint(id);
        self.build_request(Method::Delete, endpoint.as_str(), None)
    }
}

/// Maps a response's status and body text to the pipeline's result: a
/// success body passes through (an empty one stands for the empty JSON
/// object), and any other status becomes an API error carrying the
/// envelope's first message when the body parses as the provider's error
/// envelope, else the raw body text.
pub fn interpret_response(status: u16, body: String) -> (r: Result<String, Error>)
    ensures
        is_success(status) && body@.len() == 0 ==> (r matches Ok(s) && s@ == "{}"@),
        is_success(status) && body@.len() > 0 ==> (r matches Ok(s) && s@ == body@),
        !is_success(status) ==> (r matches Err(e) && (e matches Error::Api {
            status: st,
            message: m,
        } && st == status && m@ == api_error_message(body@))),
{
    if 200 <= status && status < 300 {
        if body.as_str().is_empty() {
            Ok(String::from_str("{}"))
        } else {
            Ok(body)
        }
    } else {
        match first_error_message(body.as_str()) {
            Some(m) => Err(Error::Api { status, message: m }),
            None => Err(Error::Api { status, message: body }),
        }
    }
}

/// The delete operation's response rule: any success is success, whatever
/// the body holds — it is discarded — and any other status becomes the
/// same API error the rest of the pipeline produces.
pub fn interpret_delete_response(status: u16, body: String) -> (r: Result<(), Error>)
    ensures
        is_success(status) ==> r is Ok,
        !is_success(status) ==> (r matches Err(e) && (e matches Error::Api {
            status: st,
            message: m,
        } && st == status && m@ == api_error_message(body@))),
{
    match interpret_response(status, body) {
        Ok(_) => Ok(()),
        Err(e) => Err(e),
    }
}

} // verus!

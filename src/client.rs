//! Calls to the rendering service: how a request is built, and how a response
//! body is read into links or Markdown, with the service's error taxonomy.
use vstd::prelude::*;
use crate::keys::{decimal, digits};
use crate::retry::{AttemptOutcome, RetryError};

verus! {

/// A capability of the rendering service.
#[derive(Clone, Copy, Debug, PartialEq, Eq, Structural)]
pub enum Capability {
    /// Extract the links of a page.
    Links,
    /// Render a page as Markdown.
    Markdown,
}

/// The account identifier and the bearer token for the rendering service.
#[derive(Clone, Debug)]
pub struct Credentials {
    pub account_id: String,
    pub api_token: String,
}

/// One POST to the rendering service, ready to send.
#[derive(Clone, Debug)]
pub struct RemoteRequest {
    /// The endpoint.
    pub url: String,
    /// The value of the `Authorization` header.
    pub authorization: String,
    /// The JSON body.
    pub body: String,
}

/// Why a call to the rendering service failed.
#[derive(Clone, Debug, PartialEq, Eq)]
pub enum ClientError {
    /// Every attempt failed in transport or with a non-success status.
    Transport(RetryError),
    /// The service answered with `success: false`.
    Rejected,
    /// The response body was not the expected JSON.
    Decode,
}

pub open spec fn capability_path(c: Capability) -> Seq<char> {
    match c {
        Capability::Links => "links"@,
        Capability::Markdown => "markdown"@,
    }
}

pub open spec fn capability_title(c: Capability) -> Seq<char> {
    match c {
        Capability::Links => "Links"@,
        Capability::Markdown => "Markdown"@,
    }
}

/// The endpoint of capability `c` for the account `account`.
pub open spec fn endpoint(account: Seq<char>, c: Capability) -> Seq<char> {
    "https://api.cloudflare.com/client/v4/accounts/"@ + account + "/browser-rendering/"@
        + capability_path(c)
}

/// The JSON string literal that encodes `s`, quotes included.
pub uninterp spec fn json_quoted(s: Seq<char>) -> Seq<char>;

/// The JSON request body that names the page `target`.
pub open spec fn request_body(target: Seq<char>) -> Seq<char> {
    "{\"url\":"@ + json_quoted(target) + "}"@
}

/// What a links response body holds: the `success` flag and the `result`
/// list, or nothing when it is not such a JSON object.
pub uninterp spec fn links_payload(body: Seq<char>) -> Option<(bool, Seq<Seq<char>>)>;

/// What a Markdown response body holds: the `success` flag and the `result`
/// text, or nothing when it is not such a JSON object.
pub uninterp spec fn markdown_payload(body: Seq<char>) -> Option<(bool, Seq<char>)>;

/// Relies on `serde_json::to_string` on a `str`: the quoted, escaped JSON
/// string. Serializing a `str` into memory has no failure path.
#[verifier::external_body]
fn quote_json(s: &str) -> (r: String)
    ensures
        r@ == json_quoted(s@),
{
    serde_json::to_string(s).unwrap_or_default()
}

/// Relies on `serde_json::from_str` into a `serde_json::Value`, read through
/// `Value::get`, `as_bool`, `as_array` and `as_str`: the fields `success` and
/// `result` (a list of strings) of a JSON object.
#[verifier::external_body]
fn parse_links_payload(body: &str) -> (r: Option<(bool, Vec<String>)>)
    ensures
        match r {
            Some((ok, v)) => links_payload(body@) == Some((ok, v.deep_view())),
            None => links_payload(body@) is None,
        },
{
    let v: serde_json::Value = serde_json::from_str(body).ok()?;
    let ok = v.get("success")?.as_bool()?;
    let items = v.get("result")?.as_array()?;
    let links: Option<Vec<String>> = items.iter().map(|i| i.as_str().map(|s| s.to_owned())).collect();
    Some((ok, links?))
}

/// Relies on `serde_json::from_str` into a `serde_json::Value`, read through
/// `Value::get`, `as_bool` and `as_str`: the fields `success` and `result`
/// (a string) of a JSON object.
#[verifier::external_body]
fn parse_markdown_payload(body: &str) -> (r: Option<(bool, String)>)
    ensures
        match r {
            Some((ok, t)) => markdown_payload(body@) == Some((ok, t@)),
            None => markdown_payload(body@) is None,
        },
{
    let v: serde_json::Value = serde_json::from_str(body).ok()?;
    let ok = v.get("success")?.as_bool()?;
    let text = v.get("result")?.as_str()?;
    Some((ok, text.to_owned()))
}

/// The endpoint of capability `c` for the account `account_id`.
pub fn endpoint_of(account_id: &str, c: Capability) -> (r: String)
    ensures
        r@ == endpoint(account_id@, c),
{
    let mut s = "https://api.cloudflare.com/client/v4/accounts/".to_owned();
    s.append(account_id);
    s.append("/browser-rendering/");
    match c {
        Capability::Links => s.append("links"),
        Capability::Markdown => s.append("markdown"),
    }
    s
}

/// The request that asks capability `c` about the page `target`.
pub fn build_request(creds: &Credentials, c: Capability, target: &str) -> (r: RemoteRequest)
    ensures
        r.url@ == endpoint(creds.account_id@, c),
        r.authorization@ == "Bearer "@ + creds.api_token@,
        r.body@ == request_body(target@),
{
    let url = endpoint_of(creds.account_id.as_str(), c);
    let mut authorization = "Bearer ".to_owned();
    authorization.append(creds.api_token.as_str());
    let mut body = "{\"url\":".to_owned();
    body.append(quote_json(target).as_str());
    body.append("}");
    RemoteRequest { url, authorization, body }
}

/// The result of a call whose decoded body is `payload`: its `result` when
/// the service reported success, else why not.
pub fn payload_outcome<T>(payload: Option<(bool, T)>) -> (r: Result<T, ClientError>)
    ensures
        match payload {
            None => r == Err::<T, ClientError>(ClientError::Decode),
            Some((false, _)) => r == Err::<T, ClientError>(ClientError::Rejected),
            Some((true, x)) => r == Ok::<T, ClientError>(x),
        },
{
    match payload {
        None => Err(ClientError::Decode),
        Some((ok, x)) => if ok {
            Ok(x)
        } else {
            Err(ClientError::Rejected)
        },
    }
}

/// Reads the body of a successful links response.
pub fn decode_links(body: &str) -> (r: Result<Vec<String>, ClientError>)
    ensures
        match links_payload(body@) {
            None => r == Err::<Vec<String>, ClientError>(ClientError::Decode),
            Some((false, _)) => r == Err::<Vec<String>, ClientError>(ClientError::Rejected),
            Some((true, l)) => r is Ok && r->Ok_0.deep_view() == l,
        },
{
    payload_outcome(parse_links_payload(body))
}

/// Reads the body of a successful Markdown response.
pub fn decode_markdown(body: &str) -> (r: Result<String, ClientError>)
    ensures
        match markdown_payload(body@) {
            None => r == Err::<String, ClientError>(ClientError::Decode),
            Some((false, _)) => r == Err::<String, ClientError>(ClientError::Rejected),
            Some((true, t)) => r is Ok && r->Ok_0@ == t,
        },
{
    payload_outcome(parse_markdown_payload(body))
}

/// The text of a terminal retry error.
pub open spec fn retry_text(e: RetryError) -> Seq<char> {
    match e.last {
        AttemptOutcome::Status(s) => "HTTP error after "@ + digits(e.attempts as nat)
            + " attempts: "@ + digits(s as nat),
        AttemptOutcome::Transport(t) => "Request failed after "@ + digits(e.attempts as nat)
            + " attempts: "@ + t@,
    }
}

/// The text of a failed call of capability `c`.
pub open spec fn client_error_text(e: ClientError, c: Capability) -> Seq<char> {
    match e {
        ClientError::Transport(r) => capability_title(c) + " request failed: "@ + retry_text(r),
        ClientError::Rejected => capability_title(c) + " API returned success: false"@,
        ClientError::Decode => "Failed to parse "@ + capability_path(c) + " response"@,
    }
}

impl RetryError {
    /// A human-readable description.
    pub fn message(&self) -> (r: String)
        ensures
            r@ == retry_text(*self),
    {
        match &self.last {
            AttemptOutcome::Status(s) => {
                let mut m = "HTTP error after ".to_owned();
                m.append(decimal(self.attempts as u64).as_str());
                m.append(" attempts: ");
                m.append(decimal(*s as u64).as_str());
                m
            },
            AttemptOutcome::Transport(t) => {
                let mut m = "Request failed after ".to_owned();
                m.append(decimal(self.attempts as u64).as_str());
                m.append(" attempts: ");
                m.append(t.as_str());
                m
            },
        }
    }
}

impl ClientError {
    /// A human-readable description of a failed call of capability `c`.
    pub fn message(&self, c: Capability) -> (r: String)
        ensures
            r@ == client_error_text(*self, c),
    {
        match self {
            ClientError::Transport(e) => {
                let mut m = match c {
                    Capability::Links => "Links".to_owned(),
                    Capability::Markdown => "Markdown".to_owned(),
                };
                m.append(" request failed: ");
                m.append(e.message().as_str());
                m
            },
            ClientError::Rejected => {
                let mut m = match c {
                    Capability::Links => "Links".to_owned(),
                    Capability::Markdown => "Markdown".to_owned(),
                };
                m.append(" API returned success: false");
                m
            },
            ClientError::Decode => {
                let mut m = "Failed to parse ".to_owned();
                match c {
                    Capability::Links => m.append("links"),
                    Capability::Markdown => m.append("markdown"),
                }
                m.append(" response");
                m
            },
        }
    }
}

} // verus!

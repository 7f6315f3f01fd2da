use vstd::prelude::*;
use vstd::utf8::{decode_utf8, encode_utf8, valid_utf8};

use crate::error::Error;
use crate::fetch::GithubInfo;

verus! {

/// The endpoint that every fetch reads.
pub const HTTP_REMOTE_REQUEST: &'static str = "https://api.github.com/orgs/substrate-developer-hub";

/// How long a worker waits for the response, in milliseconds.
pub const FETCH_TIMEOUT_MS: u64 = 3000;

/// A GET request as the worker hands it to the transport.
#[derive(Clone, Debug, PartialEq, Eq)]
pub struct HttpRequest {
    pub url: String,
    /// The value of the `User-Agent` header.
    pub user_agent: String,
    /// The time, in milliseconds, after which the wait is abandoned.
    pub deadline_ms: u64,
}

/// What the transport reports for a request.
#[derive(Clone, Debug, PartialEq, Eq)]
pub enum HttpOutcome {
    /// The header could not be attached.
    HeaderRejected,
    /// The request could not be sent.
    SendFailed,
    /// The deadline passed before a response came.
    DeadlineReached,
    /// The transport failed while receiving the response.
    TransportFailed,
    /// A response, with its status code and its whole body.
    Response { code: u16, body: Vec<u8> },
}

/// The fields of a decoded JSON response body, each `None` where the body
/// has no such field of the expected JSON type (a string for `login` and
/// `blog`, an unsigned integer for `public_repos`).
#[derive(Clone, Debug, PartialEq, Eq)]
pub struct JsonFields {
    pub login: Option<String>,
    pub blog: Option<String>,
    pub public_repos: Option<u64>,
}

/// Relies on `std::str::from_utf8`: it accepts exactly the valid UTF-8
/// byte sequences, and the text it returns is the one they encode.
#[verifier::external_body]
fn utf8_string(b: &[u8]) -> (r: Option<String>)
    ensures
        r is Some <==> valid_utf8(b@),
        r matches Some(s) ==> s@ == decode_utf8(b@),
{
    match std::str::from_utf8(b) {
        Ok(s) => Some(s.to_string()),
        Err(_) => None,
    }
}

/// The deadline for a request issued at `now_ms`: `FETCH_TIMEOUT_MS` later,
/// held at the largest time there is.
pub open spec fn deadline_after(now_ms: u64) -> u64 {
    if now_ms + FETCH_TIMEOUT_MS <= u64::MAX {
        (now_ms + FETCH_TIMEOUT_MS) as u64
    } else {
        u64::MAX
    }
}

/// Builds the request of a fetch: `endpoint` as its target, `header` as its
/// `User-Agent`, and a deadline `FETCH_TIMEOUT_MS` after `now_ms`. A header
/// that is not UTF-8 gives `HttpFetchingError3`; else an endpoint that is
/// not UTF-8 gives `HttpFetchingError4`.
pub fn build_request(endpoint: &[u8], header: &[u8], now_ms: u64) -> (r: Result<HttpRequest, Error>)
    ensures
        !valid_utf8(header@) ==> r == Err::<HttpRequest, Error>(Error::HttpFetchingError3),
        valid_utf8(header@) && !valid_utf8(endpoint@) ==> r == Err::<HttpRequest, Error>(
            Error::HttpFetchingError4,
        ),
        valid_utf8(header@) && valid_utf8(endpoint@) ==> (r matches Ok(req) && req.url@ == decode_utf8(
            endpoint@,
        ) && req.user_agent@ == decode_utf8(header@) && req.deadline_ms == deadline_after(now_ms)),
{
    let user_agent = match utf8_string(header) {
        Some(s) => s,
        None => return Err(Error::HttpFetchingError3),
    };
    let url = match utf8_string(endpoint) {
        Some(s) => s,
        None => return Err(Error::HttpFetchingError4),
    };
    let deadline_ms = now_ms.saturating_add(FETCH_TIMEOUT_MS);
    Ok(HttpRequest { url, user_agent, deadline_ms })
}

/// The body of a response with status 200; each other outcome is a failure
/// with the code of the stage where it came.
pub fn response_body(outcome: HttpOutcome) -> (r: Result<Vec<u8>, Error>)
    ensures
        r == (match outcome {
            HttpOutcome::HeaderRejected => Err(Error::HttpFetchingError5),
            HttpOutcome::SendFailed => Err(Error::HttpFetchingError6),
            HttpOutcome::DeadlineReached => Err(Error::HttpFetchingError7),
            HttpOutcome::TransportFailed => Err(Error::HttpFetchingError8),
            HttpOutcome::Response { code, body } => if code == 200 {
                Ok(body)
            } else {
                Err(Error::HttpFetchingError9)
            },
        }),
{
    match outcome {
        HttpOutcome::HeaderRejected => Err(Error::HttpFetchingError5),
        HttpOutcome::SendFailed => Err(Error::HttpFetchingError6),
        HttpOutcome::DeadlineReached => Err(Error::HttpFetchingError7),
        HttpOutcome::TransportFailed => Err(Error::HttpFetchingError8),
        HttpOutcome::Response { code, body } => {
            if code == 200 {
                Ok(body)
            } else {
                Err(Error::HttpFetchingError9)
            }
        },
    }
}

/// The text of a fetched body. Any failure of the request becomes
/// `HttpFetchingError0`; a body that is not UTF-8 gives `HttpFetchingError1`.
pub fn body_text(fetched: Result<Vec<u8>, Error>) -> (r: Result<String, Error>)
    ensures
        fetched is Err ==> r == Err::<String, Error>(Error::HttpFetchingError0),
        fetched matches Ok(body) ==> (if valid_utf8(body@) {
            r matches Ok(s) && s@ == decode_utf8(body@)
        } else {
            r == Err::<String, Error>(Error::HttpFetchingError1)
        }),
{
    match fetched {
        Err(_) => Err(Error::HttpFetchingError0),
        Ok(body) => match utf8_string(body.as_slice()) {
            Some(s) => Ok(s),
            None => Err(Error::HttpFetchingError1),
        },
    }
}

/// The UTF-8 bytes of a string.
pub fn de_string_to_bytes(s: &str) -> (r: Vec<u8>)
    ensures
        r@ == encode_utf8(s@),
{
    vstd::slice::slice_to_vec(s.as_bytes())
}

/// Decoded fields that make a cached record: all three present, and
/// `public_repos` within 32 bits.
pub open spec fn json_complete(parsed: Option<JsonFields>) -> bool {
    match parsed {
        Some(JsonFields { login: Some(_), blog: Some(_), public_repos: Some(n) }) => n <= u32::MAX,
        _ => false,
    }
}

/// The cached record for decoded JSON fields: `HttpFetchingError2` where the
/// body did not decode as JSON (`None`), where a field is missing, or where
/// `public_repos` does not fit in 32 bits.
pub fn github_info_from_json(parsed: Option<JsonFields>) -> (r: Result<GithubInfo, Error>)
    ensures
        r is Ok <==> json_complete(parsed),
        !json_complete(parsed) ==> r == Err::<GithubInfo, Error>(Error::HttpFetchingError2),
        r matches Ok(info) ==> info.login@ == encode_utf8(parsed->Some_0.login->Some_0@)
            && info.blog@ == encode_utf8(parsed->Some_0.blog->Some_0@)
            && info.public_repos == parsed->Some_0.public_repos->Some_0,
{
    match parsed {
        Some(JsonFields { login: Some(login), blog: Some(blog), public_repos: Some(n) }) => {
            if n <= u32::MAX as u64 {
                Ok(
                    GithubInfo {
                        login: de_string_to_bytes(login.as_str()),
                        blog: de_string_to_bytes(blog.as_str()),
                        public_repos: n as u32,
                    },
                )
            } else {
                Err(Error::HttpFetchingError2)
            }
        },
        _ => Err(Error::HttpFetchingError2),
    }
}

} // verus!

//! The client: its configuration, and the decisions of one HTTP exchange.
//!
//! The client describes each call as an [`HttpCall`]; the caller performs it
//! with the transport handle and hands the status and body back.
use std::time::Duration;

use reqwest::header::{HeaderValue, InvalidHeaderValue};
use url::Url;
use vstd::prelude::*;

use crate::errors::QueryError;
use crate::request::{opt_text, RequestMethod, SingleRequest};

verus! {

/// A parsed absolute URL; only whether one was parsed is used.
#[verifier::external_type_specification]
#[verifier::external_body]
pub struct ExUrl(url::Url);

/// The HTTP transport handle, carried through unread.
#[verifier::external_type_specification]
#[verifier::external_body]
pub struct ExHttpSession(reqwest::Client);

/// An HTTP header value, carried through unread.
#[verifier::external_type_specification]
#[verifier::external_body]
pub struct ExHeaderValue(reqwest::header::HeaderValue);

/// The error of a text that is no header value.
#[verifier::external_type_specification]
#[verifier::external_body]
pub struct ExInvalidHeaderValue(reqwest::header::InvalidHeaderValue);

/// Whether `s` parses as an absolute URL.
pub uninterp spec fn url_parses(s: Seq<char>) -> bool;

/// Relies on `url::Url::parse`: it succeeds exactly on the texts that are
/// absolute URLs.
#[verifier::external_body]
fn parse_url(s: &str) -> (r: Result<Url, url::ParseError>)
    ensures
        r is Ok == url_parses(s@),
{
    Url::parse(s)
}

/// The text of the URL that `path` resolves to against the URL `base`, or
/// `None` where it resolves to none.
pub uninterp spec fn joined_url(base: Seq<char>, path: Seq<char>) -> Option<Seq<char>>;

/// Relies on `url::Url::parse` of `base` and `url::Url::join` of `path` on
/// it, serialized by `String::from`; the result depends on the two texts
/// alone.
#[verifier::external_body]
fn join_url(base: &str, path: &str) -> (r: Result<String, url::ParseError>)
    ensures
        match joined_url(base@, path@) {
            Some(u) => r is Ok && r->Ok_0@ == u,
            None => r is Err,
        },
{
    Url::parse(base)?.join(path).map(String::from)
}

/// Relies on `reqwest::ClientBuilder::build`, with `default_headers`: a
/// transport that sends `media_type` as `Accept` and `Content-Type` and
/// `user_agent` as `User-Agent` with every request. `HeaderValue::from_static`
/// panics on a text that is no header value, hence the `requires`. Whether
/// the transport can be set up depends on the machine.
#[verifier::external_body]
fn open_session(media_type: &'static str, user_agent: &'static str) -> (r: Result<
    reqwest::Client,
    reqwest::Error,
>)
    requires
        static_header_text(media_type@),
        static_header_text(user_agent@),
{
    let mut headers = reqwest::header::HeaderMap::new();
    headers.insert(reqwest::header::ACCEPT, HeaderValue::from_static(media_type));
    headers.insert(reqwest::header::CONTENT_TYPE, HeaderValue::from_static(media_type));
    headers.insert(reqwest::header::USER_AGENT, HeaderValue::from_static(user_agent));
    reqwest::ClientBuilder::new().default_headers(headers).build()
}

/// Whether `c` may stand in an HTTP header value: a visible character, a
/// space or a tab; every character beyond ASCII is made of bytes that may.
pub open spec fn header_char(c: char) -> bool {
    (c as u32 >= 32 && c as u32 != 127) || c as u32 == 9
}

/// Whether every character of `s` may stand in an HTTP header value.
pub open spec fn header_text(s: Seq<char>) -> bool {
    forall|i: int| 0 <= i < s.len() ==> header_char(#[trigger] s[i])
}

/// Whether `s` is made of visible ASCII, spaces and tabs only.
pub open spec fn static_header_text(s: Seq<char>) -> bool {
    forall|i: int| 0 <= i < s.len() ==> static_header_char(#[trigger] s[i])
}

/// Whether `c` is visible ASCII, a space or a tab.
pub open spec fn static_header_char(c: char) -> bool {
    (c as u32 >= 32 && (c as u32) < 127) || c as u32 == 9
}

/// Relies on `HeaderValue::from_str`: it accepts a text exactly when each of
/// its bytes is visible ASCII, a space, a tab, or above ASCII.
pub assume_specification[ reqwest::header::HeaderValue::from_str ](src: &str) -> (r: Result<
    HeaderValue,
    InvalidHeaderValue,
>)
    ensures
        r is Ok == header_text(src@),
;

/// Relies on `HeaderValue::set_sensitive`, which marks the value so that it
/// is masked in debug output and treated with care by the transport;
/// nothing is claimed of the result.
pub assume_specification[ reqwest::header::HeaderValue::set_sensitive ](
    v: &mut HeaderValue,
    val: bool,
);

/// The header value of the text `text`, marked sensitive; it exists
/// exactly when every character of `text` may stand in a header value.
pub fn sensitive_header(text: &str) -> (r: Result<HeaderValue, InvalidHeaderValue>)
    ensures
        r is Ok == header_text(text@),
{
    match HeaderValue::from_str(text) {
        Ok(mut value) => {
            value.set_sensitive(true);
            Ok(value)
        },
        Err(error) => Err(error),
    }
}

/// The user agent that the client announces.
pub const USER_AGENT: &'static str = "anitya-rs";

/// The media type of request and response bodies.
pub const MEDIA_TYPE: &'static str = "application/json";

/// The configuration of a client, before it is built.
pub struct ClientBuilder<'a> {
    url: &'a str,
    token: Option<&'a str>,
    delay: Option<Duration>,
}

/// The text of an optional string slice.
pub open spec fn opt_str(s: Option<&str>) -> Option<Seq<char>> {
    match s {
        Some(s) => Some(s@),
        None => None,
    }
}

impl<'a> ClientBuilder<'a> {
    pub closed spec fn url_spec(&self) -> Seq<char> {
        self.url@
    }

    pub closed spec fn token_spec(&self) -> Option<Seq<char>> {
        opt_str(self.token)
    }

    pub closed spec fn delay_spec(&self) -> Option<Duration> {
        self.delay
    }

    /// A client of the service at `url`, without token or delay.
    pub fn new(url: &'a str) -> (r: Self)
        ensures
            r.url_spec() == url@,
            r.token_spec() is None,
            r.delay_spec() is None,
    {
        ClientBuilder { url, token: None, delay: None }
    }

    /// Sends `token` with write operations.
    pub fn with_token(self, token: &'a str) -> (r: Self)
        ensures
            r.url_spec() == self.url_spec(),
            r.token_spec() == Some(token@),
            r.delay_spec() == self.delay_spec(),
    {
        ClientBuilder { token: Some(token), ..self }
    }

    /// Pauses for `delay` after each page of a paginated traversal but the first.
    pub fn with_delay(self, delay: Duration) -> (r: Self)
        ensures
            r.url_spec() == self.url_spec(),
            r.token_spec() == self.token_spec(),
            r.delay_spec() == Some(delay),
    {
        ClientBuilder { delay: Some(delay), ..self }
    }

    /// Builds the client: the URL must parse, the transport must come up,
    /// and the token must make a valid header value, in that order.
    pub fn build(self) -> (r: Result<AnityaClient, ClientBuildError>)
        ensures
            !url_parses(self.url_spec()) ==> r is Err && r->Err_0 is InvalidURL,
            url_parses(self.url_spec()) ==> !(r is Err && r->Err_0 is InvalidURL),
            url_parses(self.url_spec()) && !(r is Err && r->Err_0 is Initialization) ==> match self.token_spec() {
                Some(t) => if header_text(token_header(t)) {
                    r is Ok
                } else {
                    r is Err && r->Err_0 is InvalidToken
                },
                None => r is Ok,
            },
            r is Ok ==> r->Ok_0.base_spec() == self.url_spec() && r->Ok_0.delay_spec()
                == self.delay_spec() && r->Ok_0.authorization_spec() == match self.token_spec() {
                Some(t) => Some(token_header(t)),
                None => None::<Seq<char>>,
            },
    {
        match parse_url(self.url) {
            Ok(_) => {},
            Err(error) => return Err(ClientBuildError::InvalidURL { error }),
        }
        proof {
            reveal_strlit("anitya-rs");
            reveal_strlit("application/json");
        }
        let session = match open_session(MEDIA_TYPE, USER_AGENT) {
            Ok(session) => session,
            Err(error) => return Err(ClientBuildError::Initialization { error }),
        };
        let authorization = match self.token {
            Some(token) => {
                let text = String::from_str("token ").concat(token);
                match sensitive_header(text.as_str()) {
                    Ok(_) => Some(text),
                    Err(error) => return Err(ClientBuildError::InvalidToken { error }),
                }
            },
            None => None,
        };
        Ok(AnityaClient {
            base: String::from_str(self.url),
            session,
            authorization,
            delay: self.delay,
        })
    }
}

/// The header value that carries `token`.
pub open spec fn token_header(token: Seq<char>) -> Seq<char> {
    "token "@ + token
}

/// Why a client could not be built.
#[derive(Debug)]
#[allow(inconsistent_fields)]
pub enum ClientBuildError {
    InvalidURL { error: url::ParseError },
    InvalidToken { error: InvalidHeaderValue },
    Initialization { error: reqwest::Error },
}

/// A client of the service: immutable once built, shared by any number of
/// calls. It has no `Debug` output, which would show the token.
pub struct AnityaClient {
    base: String,
    session: reqwest::Client,
    authorization: Option<String>,
    delay: Option<Duration>,
}

/// One HTTP call, ready to be sent.
pub struct HttpCall {
    pub method: RequestMethod,
    /// The absolute URL of the call.
    pub url: String,
    pub body: Option<String>,
    /// The `Authorization` header, sent with write operations only; the
    /// transport sends it as [`sensitive_header`] makes it.
    pub authorization: Option<String>,
}

/// Whether an HTTP status code means success.
pub open spec fn is_success(code: u16) -> bool {
    200 <= code && code <= 299
}

/// What a request becomes once its URL is known: the call, or the failure
/// that stops it before any network activity.
pub open spec fn dispatched(
    method: RequestMethod,
    body: Option<Option<Seq<char>>>,
    authorization: Option<Seq<char>>,
    r: Result<HttpCall, QueryError>,
) -> bool {
    if method == RequestMethod::POST && authorization is None {
        r is Err && r->Err_0 is Unauthorized
    } else {
        match body {
            None => r is Err && r->Err_0 is DeSerialization,
            Some(b) => r is Ok && r->Ok_0.method == method && opt_text(r->Ok_0.body) == b && opt_text(
                r->Ok_0.authorization,
            ) == (if method == RequestMethod::POST {
                authorization
            } else {
                None
            }),
        }
    }
}

impl AnityaClient {
    pub closed spec fn has_token(&self) -> bool {
        self.authorization is Some
    }

    /// The base URL, as it was given.
    pub closed spec fn base_spec(&self) -> Seq<char> {
        self.base@
    }

    /// The `Authorization` header that write operations carry, if any.
    pub closed spec fn authorization_spec(&self) -> Option<Seq<char>> {
        opt_text(self.authorization)
    }

    pub closed spec fn delay_spec(&self) -> Option<Duration> {
        self.delay
    }

    /// The transport that performs the calls.
    pub fn session(&self) -> &reqwest::Client {
        &self.session
    }

    /// The pause between the pages of a traversal, if any.
    pub fn delay(&self) -> (r: Option<Duration>)
        ensures
            r == self.delay_spec(),
    {
        self.delay
    }

    /// Describes the call that `request` makes: its path is resolved against
    /// the base URL; a write operation needs a token, and fails without one
    /// before anything is sent.
    pub fn prepare<R, P, T>(&self, request: &R) -> (r: Result<HttpCall, QueryError>) where
        R: SingleRequest<P, T>,

        ensures
            match request.path_spec() {
                None => r is Err && r->Err_0 is InvalidQueryString,
                Some(p) => match joined_url(self.base_spec(), p) {
                    None => r is Err && r->Err_0 is InvalidURL,
                    Some(u) => dispatched(
                        request.method_spec(),
                        request.body_spec(),
                        self.authorization_spec(),
                        r,
                    ) && (r is Ok ==> r->Ok_0.url@ == u),
                },
            },
    {
        let path = match request.path() {
            Ok(path) => path,
            Err(e) => return Err(e),
        };
        match join_url(self.base.as_str(), path.as_str()) {
            Ok(url) => self.dispatch(request, url),
            Err(error) => Err(QueryError::InvalidURL { error }),
        }
    }

    /// Describes the call that `request` makes to `url`.
    pub fn dispatch<R, P, T>(&self, request: &R, url: String) -> (r: Result<HttpCall, QueryError>) where
        R: SingleRequest<P, T>,

        ensures
            dispatched(request.method_spec(), request.body_spec(), self.authorization_spec(), r),
            r is Ok ==> r->Ok_0.url == url,
    {
        let method = request.method();
        let authorization = match method {
            RequestMethod::GET => None,
            RequestMethod::POST => match &self.authorization {
                Some(text) => Some(text.clone()),
                None => return Err(QueryError::Unauthorized),
            },
        };
        match request.body() {
            Ok(body) => Ok(HttpCall { method, url, body, authorization }),
            Err(e) => Err(e),
        }
    }

    /// The body of a response with status `code`: kept on success, and
    /// carried in the error otherwise.
    pub fn accept_status(code: u16, body: String) -> (r: Result<String, QueryError>)
        ensures
            is_success(code) ==> r == Ok::<String, QueryError>(body),
            !is_success(code) ==> r is Err && r->Err_0 == (QueryError::Request { code, error: body }),
    {
        if 200 <= code && code <= 299 {
            Ok(body)
        } else {
            Err(QueryError::Request { code, error: body })
        }
    }

    /// The page read from a response body, or the failure to read it: a
    /// body that is no valid JSON of the page's shape is a deserialization
    /// error.
    pub fn parsed_page<P>(parsed: Result<P, serde_json::Error>) -> (r: Result<P, QueryError>)
        ensures
            match parsed {
                Ok(page) => r == Ok::<P, QueryError>(page),
                Err(error) => r is Err && r->Err_0 == (QueryError::DeSerialization { error }),
            },
    {
        match parsed {
            Ok(page) => Ok(page),
            Err(error) => Err(QueryError::DeSerialization { error }),
        }
    }

    /// The caller's result from the parsed response body, or the failure to
    /// parse it.
    pub fn complete<R, P, T>(request: &R, parsed: Result<P, serde_json::Error>) -> (r: Result<T, QueryError>) where
        R: SingleRequest<P, T>,

        ensures
            match parsed {
                Ok(page) => r == Ok::<T, QueryError>(request.extract_spec(page)),
                Err(error) => r is Err && r->Err_0 == (QueryError::DeSerialization { error }),
            },
    {
        match parsed {
            Ok(page) => Ok(request.extract(page)),
            Err(error) => Err(QueryError::DeSerialization { error }),
        }
    }
}

} // verus!

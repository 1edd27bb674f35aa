//! The failures of a call to the service.
use vstd::prelude::*;

verus! {

/// The error of `serde_json`, carried through unread.
#[verifier::external_type_specification]
#[verifier::external_body]
pub struct ExJsonError(serde_json::Error);

/// The error of `serde_url_params`, carried through unread.
#[verifier::external_type_specification]
#[verifier::external_body]
pub struct ExUrlParamsError(serde_url_params::Error);

/// The error of `url`, carried through unread.
#[verifier::external_type_specification]
#[verifier::external_body]
pub struct ExUrlParseError(url::ParseError);

/// The error of `reqwest`, carried through unread.
#[verifier::external_type_specification]
#[verifier::external_body]
pub struct ExTransportError(reqwest::Error);

/// Everything that can make one call, or one paginated traversal, fail.
#[derive(Debug)]
#[allow(inconsistent_fields)]
pub enum QueryError {
    /// A JSON value could not be written or read.
    DeSerialization { error: serde_json::Error },
    /// The fields of a request could not be encoded as `x-www-form-urlencoded`.
    InvalidQueryString { error: serde_url_params::Error },
    /// The request URL could not be computed.
    InvalidURL { error: url::ParseError },
    /// The request failed on its way, in the transport.
    Networking { error: reqwest::Error },
    /// The server answered with a status other than 2xx.
    Request { code: u16, error: String },
    /// A write operation was attempted without an API token.
    Unauthorized,
}

} // verus!

//! The contracts that every API operation, and every paginated query, meets.
use vstd::prelude::*;

use crate::errors::QueryError;

verus! {

/// The HTTP method of an operation: reads are GET, writes are POST.
#[derive(Debug, PartialEq, Eq, Structural, Clone, Copy)]
pub enum RequestMethod {
    GET,
    POST,
}

/// One API operation: how its HTTP call is made and how the page that the
/// server sends back becomes the caller's result.
///
/// `P` is the shape of the response body, `T` the result handed to the caller.
pub trait SingleRequest<P, T> {
    /// The method of the operation.
    spec fn method_spec(&self) -> RequestMethod;

    /// The request path with its query string, or `None` where the fields
    /// cannot be encoded.
    spec fn path_spec(&self) -> Option<Seq<char>>;

    /// The request body, or `None` where the fields cannot be encoded.
    spec fn body_spec(&self) -> Option<Option<Seq<char>>>;

    /// The result that a page projects to.
    spec fn extract_spec(&self, page: P) -> T;

    fn method(&self) -> (m: RequestMethod)
        ensures
            m == self.method_spec(),
    ;

    fn path(&self) -> (r: Result<String, QueryError>)
        ensures
            match self.path_spec() {
                Some(p) => r is Ok && r->Ok_0@ == p,
                None => r is Err && r->Err_0 is InvalidQueryString,
            },
    ;

    fn body(&self) -> (r: Result<Option<String>, QueryError>)
        ensures
            match self.body_spec() {
                Some(b) => r is Ok && opt_text(r->Ok_0) == b,
                None => r is Err && r->Err_0 is DeSerialization,
            },
    ;

    /// Projects a page on the caller's result; the same page always gives
    /// the same result.
    fn extract(&self, page: P) -> (t: T)
        ensures
            t == self.extract_spec(page),
    ;
}

/// The text of an optional string.
pub open spec fn opt_text(s: Option<String>) -> Option<Seq<char>> {
    match s {
        Some(s) => Some(s@),
        None => None,
    }
}

/// A response page that knows how many pages the whole collection fills.
pub trait Pagination {
    spec fn pages_spec(&self) -> u32;

    fn pages(&self) -> (r: u32)
        ensures
            r == self.pages_spec(),
    ;
}

/// A query over a paginated collection: a factory of one request per page.
pub trait PaginatedRequest<'a, P, T, S> where S: SingleRequest<P, T> + 'a {
    /// The request for page `page`.
    spec fn page_request_spec(&self, page: u32) -> S;

    fn page_request(&'a self, page: u32) -> (s: S)
        ensures
            s == self.page_request_spec(page),
            s.method_spec() == RequestMethod::GET,
    ;
}

} // verus!

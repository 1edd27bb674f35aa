//! Typed client for the Anitya release-monitoring service.
//!
//! The library holds the request/response engine: the request contracts,
//! the error taxonomy, the decisions of one HTTP exchange and the state
//! machine of a paginated traversal. The transport itself is driven by the
//! caller, which performs the calls that the engine describes.
pub mod client;
pub use client::{AnityaClient, ClientBuildError, ClientBuilder, HttpCall};

pub mod errors;
pub use errors::QueryError;

pub mod params;
pub use params::{Param, ParamValue};

pub mod request;
pub use request::{opt_text, PaginatedRequest, Pagination, RequestMethod, SingleRequest};

pub mod traversal;
pub use traversal::{Progress, Step, Traversal};

pub mod v2;


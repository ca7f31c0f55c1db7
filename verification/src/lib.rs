//! Decision core of a middleware that routes requests to API versions by writing a version
//! segment such as `/v1` into the request path, so that a router behind it tells the versions
//! apart by path alone.
//!
//! The version of a request is the one that its `x-api-version` header designates, as in `v1`,
//! or the highest supported version where the request has no such header. Which requests are
//! rewritten is set up in one of two ways: by a base path under which all requests are
//! rewritten, or by a filter that is asked request by request.
//!
//! The library holds the rules and nothing else. It reads no request and sends no response: a
//! caller hands it the target of a request and its header, asks its filter where
//! [`ApiVersionService::scope_check`] says so, and carries out the [`Routing`] that
//! [`ApiVersionService::route`] gives.
//!
//! - [`versions`]: the supported versions, validated on construction.
//! - [`header`]: the header and the designators it holds.
//! - [`filter`]: the capability to decide whether a request is rewritten.
//! - [`routing`]: the rules, stated over plain values.
//! - [`service`]: the layer and the service that apply the rules.
//! - [`laws`]: what follows from the rules for every setup and request.
//! - [`text`]: characters and numerals.

pub mod filter;
pub mod header;
pub mod laws;
pub mod routing;
pub mod service;
pub mod text;
pub mod versions;

pub use filter::{All, FilterError, RewriteFilter};
pub use header::{InvalidHeader, XApiVersion, X_API_VERSION};
pub use routing::{Rejection, Routing, Scope};
pub use service::{is_valid_base_path, ApiVersionLayer, ApiVersionService};
pub use versions::{is_monotonically_increasing, ApiVersions, ValidationError, VERSION_LIMIT};

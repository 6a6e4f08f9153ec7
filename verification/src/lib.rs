//! Client-side construction of outgoing HTTP requests.
//!
//! A set of stateless builder operations turns a base server URL, a relative
//! path, content-negotiation headers and an optional body into a
//! transport-ready [`request::Request`] value, or into a structured error.
//! URL parsing is delegated to the `url` crate; actually sending a request is
//! the business of a transport layer outside this crate.

pub mod error;
pub mod form;
pub mod laws;
pub mod request;
pub mod urlparse;

pub use error::ServerFnError;
pub use form::{FormData, Part, PartValue};
pub use request::{Body, Header, Method, Request};

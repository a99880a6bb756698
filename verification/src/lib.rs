//! A small HTTP client core.
//!
//! The crate plans GET, POST, PUT and DELETE requests — with query-string,
//! JSON or form-encoded payloads and caller-supplied headers — and it
//! classifies what the transport hands back. Performing the network
//! exchange is the transport's job; this crate owns every decision around
//! it: what counts as a valid request, which encoding each operation uses,
//! and what counts as an error.

pub mod client;
pub mod error;
pub mod json;
pub mod request;
pub mod response;
pub mod validate;

pub use client::{DataFetcher, DEFAULT_TIMEOUT_SECS};
pub use error::HttpError;
pub use request::{Form, Headers, Method, Payload, Query, RequestPlan};
pub use response::{classify, is_success_status, resolve, Outcome};

//! A source-routing query dispatcher: a fixed registry of search backends,
//! the rules that turn a query into a concrete HTTP request for one of them,
//! and the normalisation of what the transport hands back.
//!
//! The library performs no I/O. A caller prepares a request here, sends it
//! with the transport of its choice, and hands the outcome back to be
//! concluded here.

pub mod assoc;
pub mod dispatch;
pub mod encoding;
pub mod envelope;
pub mod executor;
pub mod fields;
pub mod headers;
pub mod registry;
pub mod text;

pub use envelope::{HttpError, HttpResponse};
pub use executor::HttpRequestOptions;

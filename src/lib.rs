//! Reference registry: routing, webhook normalisation, category membership and
//! badge rendering for a service that maps provider names to their locations.
//!
//! The key-value store and the HTTP transport stay outside: the library says
//! which store call a request needs and which reply an answer gives.
pub mod azure;
pub mod handler;
pub mod official;
pub mod route;
pub mod store;
pub mod text;

pub use azure::{Request, RequestPayload, Target};

//! A static directory server for test suites, seen from the inside: the rules by which it
//! answers requests, and the handle that owns its lifetime.
//!
//! The server listens on the loopback interface only, on a port that the system assigns, so
//! that many of them can run side by side. Requests are answered by one of three behaviours:
//! two fixed ones, which exist to exercise clients that follow redirects and repeat methods,
//! and the content of the directory for every other path. Binding the listener, reading files
//! and moving bytes are left to the caller; what to bind, what to answer and when to stop are
//! decided here.

pub mod error;
pub mod lifecycle;
pub mod response;
pub mod routes;
pub mod segment;
pub mod server;
mod signal;
pub mod text;

pub use error::StaticDirectoryServerError;
pub use lifecycle::{Event, Lifecycle};
pub use response::{Header, Response};
pub use routes::{respond, route, Action, Route};
pub use server::StaticDirectoryServer;

//! A bridge between an HTTP server and a single-threaded application that is
//! called through a synchronous, CGI-like convention.
//!
//! The crate holds the decisions of that bridge: how header pairs and status
//! lines are validated, how a request body is read, how requests are admitted
//! to a bounded queue and how the host serves them one at a time. The
//! surrounding program performs the waiting and the transport.

pub mod body;
pub mod error;
pub mod environ;
pub mod header;
pub mod host;
pub mod lifecycle;
pub mod queue;
pub mod request;
pub mod response;
pub mod status;
pub mod system;

//! The failures a single request can end in.

use vstd::prelude::*;

verus! {

/// A malformed part of what the application handed to the response start.
#[derive(Debug, Clone, Copy, PartialEq, Eq, Structural)]
pub enum ValidationError {
    /// The name of the header at this position is not a valid header name.
    HeaderName(usize),
    /// The value of the header at this position is not a valid field value.
    HeaderValue(usize),
    /// The status line does not start with a status code.
    StatusLine,
    /// Exception information was passed, which is not supported.
    ExceptionInfo,
}

/// Why a request failed. Each failure concerns one request only.
#[derive(Debug, Clone, Copy, PartialEq, Eq, Structural)]
pub enum RequestError {
    /// The application published a malformed status line or header.
    Validation(ValidationError),
    /// The application raised while it was invoked or while it produced the body.
    Application,
    /// The application returned without ever starting the response.
    ProtocolContract,
    /// The consumer of the response went away.
    ChannelClosed,
    /// The queue had stopped taking requests when this one was offered.
    QueueClosed,
}

} // verus!

//! The shapes the two transport variants share. A transport — blocking or
//! scheduled on an outside executor — takes one resolved request and hands
//! back either a complete response envelope or a failure of exactly this
//! shape, so callers and the classifier never see which variant ran.

use vstd::prelude::*;

verus! {

/// One complete response: the status it came with and the fully drained
/// body. Transient; it exists only for the duration of one call, and the
/// classifier consumes only complete bodies.
pub struct ResponseEnvelope {
    pub status: u16,
    pub body: Vec<u8>,
}

/// A connection or I/O failure, carrying its underlying cause. Returned to
/// the caller as-is; nothing here retries.
pub struct TransportError {
    pub cause: String,
}

impl TransportError {
    pub fn new(cause: String) -> (r: Self)
        ensures
            r.cause == cause,
    {
        TransportError { cause }
    }

    /// The underlying cause.
    pub fn cause(&self) -> (r: &str)
        ensures
            r@ == self.cause@,
    {
        self.cause.as_str()
    }
}

/// What a transport hands back for one call, whichever variant ran it.
pub type TransportOutcome = Result<ResponseEnvelope, TransportError>;

} // verus!

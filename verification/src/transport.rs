//! What the transport reports of one request, as plain values.
//!
//! The transport itself sends the request and is not part of this crate. Of
//! its answer the retry controller reads the status code and the
//! `Retry-After` header; a request that brought no answer at all is a fault.

use crate::decimal::{decimal_u64, parse_u64};
use vstd::prelude::*;

verus! {

/// The status code that says "too many requests".
pub const TOO_MANY_REQUESTS: u16 = 429;

/// Whether `status` is a success (2xx).
pub open spec fn is_success_status(status: u16) -> bool {
    200 <= status < 300
}

/// Whether `status` is a client error (4xx) or a server error (5xx).
pub open spec fn is_error_status(status: u16) -> bool {
    400 <= status < 600
}

/// The `Retry-After` header of a reply.
#[derive(Clone, Copy, Debug, PartialEq, Eq)]
pub enum RetryAfter {
    /// The reply has no such header.
    Absent,
    /// The header holds this number of seconds.
    Seconds(u64),
    /// The header is there, but its value is no decimal number.
    Malformed,
}

/// One reply of the transport.
#[derive(Clone, Copy, Debug, PartialEq, Eq)]
pub struct Reply {
    /// The status code.
    pub status: u16,
    /// The `Retry-After` header.
    pub retry_after: RetryAfter,
}

/// How one request ended.
#[derive(Clone, Copy, Debug, PartialEq, Eq)]
pub enum TransportOutcome {
    /// The server answered.
    Replied(Reply),
    /// No answer was obtained.
    Faulted,
}

impl RetryAfter {
    /// The meaning of a raw header value, `None` standing for a reply without
    /// the header.
    pub open spec fn of_header(value: Option<Seq<u8>>) -> RetryAfter {
        match value {
            None => RetryAfter::Absent,
            Some(text) => match decimal_u64(text) {
                Some(secs) => RetryAfter::Seconds(secs),
                None => RetryAfter::Malformed,
            },
        }
    }

    /// Reads the raw value of the first `Retry-After` header, if the reply has one.
    pub fn from_header(value: Option<&[u8]>) -> (header: RetryAfter)
        ensures
            header == Self::of_header(
                match value {
                    Some(text) => Some(text@),
                    None => None,
                },
            ),
    {
        match value {
            None => RetryAfter::Absent,
            Some(text) => match parse_u64(text) {
                Some(secs) => RetryAfter::Seconds(secs),
                None => RetryAfter::Malformed,
            },
        }
    }

    /// Whether the reply carried the header at all.
    pub fn is_present(&self) -> (present: bool)
        ensures
            present == !(*self is Absent),
    {
        match self {
            RetryAfter::Absent => false,
            _ => true,
        }
    }
}

impl Reply {
    /// A reply with the given status code and raw `Retry-After` value.
    pub fn new(status: u16, retry_after: Option<&[u8]>) -> (reply: Reply)
        ensures
            reply.status == status,
            reply.retry_after == RetryAfter::of_header(
                match retry_after {
                    Some(text) => Some(text@),
                    None => None,
                },
            ),
    {
        Reply { status, retry_after: RetryAfter::from_header(retry_after) }
    }

    /// Whether the status is a success (2xx).
    pub fn is_success(&self) -> (yes: bool)
        ensures
            yes == is_success_status(self.status),
    {
        200 <= self.status && self.status < 300
    }

    /// Whether the status is the rate-limit status 429.
    pub fn is_rate_limited(&self) -> (yes: bool)
        ensures
            yes == (self.status == TOO_MANY_REQUESTS),
    {
        self.status == TOO_MANY_REQUESTS
    }

    /// Whether the status is a client or server error (4xx or 5xx).
    pub fn is_error(&self) -> (yes: bool)
        ensures
            yes == is_error_status(self.status),
    {
        400 <= self.status && self.status < 600
    }
}

} // verus!

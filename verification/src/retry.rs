//! Classification of one HTTP attempt's outcome.
//!
//! One fetch attempt ends in a transport failure or in a response with a
//! status code. The policy here decides what follows: a 2xx response is a
//! success; 429 and 5xx responses and transport failures may be retried,
//! each with its backoff; every other status is a terminal failure. For a
//! 429 the backoff is taken from the `Retry-After` header when that header
//! is a positive decimal number, and otherwise defaults to
//! `RATE_LIMIT_BACKOFF_SECS`; 5xx and transport failures always back off
//! `SERVER_ERROR_BACKOFF_SECS`.

use vstd::prelude::*;

use crate::digits::all_digits;
use crate::digits::dec_value;
use crate::digits::parse_u64;

verus! {

/// Retries allowed for one page fetch; once spent, the next retryable
/// outcome is terminal.
pub const MAX_RETRIES: u8 = 5;

/// Backoff, in seconds, after a 429 response without a usable
/// `Retry-After` header.
pub const RATE_LIMIT_BACKOFF_SECS: u64 = 5;

/// Backoff, in seconds, after a 5xx response or a transport failure.
pub const SERVER_ERROR_BACKOFF_SECS: u64 = 5;

/// A response the transport completed: its status code, its `Retry-After`
/// header if one was present and readable as text, and its body.
pub struct HttpResponse {
    pub status: u16,
    pub retry_after: Option<String>,
    pub body: String,
}

/// What one attempt produced: a completed response, or a transport-level
/// failure (connection, DNS, TLS, timeout) described by a message.
pub enum Outcome {
    Response(HttpResponse),
    TransportFailure(String),
}

/// Why an attempt was retried, or what exhausted the retry budget.
pub enum Cause {
    RateLimited,
    ServerError(u16),
    Transport(String),
}

/// A terminal failure of the fetch.
pub enum FetchError {
    /// A retryable condition persisted through all `MAX_RETRIES` retries.
    RetriesExhausted(Cause),
    /// A status outside 2xx that the policy never retries.
    NonRetryable(u16),
    /// A 2xx response whose body was not valid JSON.
    Serialization,
}

/// The policy's verdict on one outcome.
pub enum Class {
    /// 2xx: parse this body as a page.
    Success(String),
    /// Retryable: back off `secs` seconds, then attempt again.
    Retry { secs: u64, cause: Cause },
    /// Any other status: fail at once.
    Fatal(u16),
}

/// True of the status codes that count as success.
pub open spec fn spec_is_success(status: u16) -> bool {
    200 <= status < 300
}

/// True of the server-error status codes.
pub open spec fn spec_is_server_error(status: u16) -> bool {
    500 <= status < 600
}

/// True of the rate-limiting status code.
pub open spec fn spec_is_rate_limited(status: u16) -> bool {
    status == 429
}

/// True of the outcomes the policy may retry.
pub open spec fn spec_retryable(o: Outcome) -> bool {
    match o {
        Outcome::Response(r) => spec_is_rate_limited(r.status) || spec_is_server_error(r.status),
        Outcome::TransportFailure(_) => true,
    }
}

/// The cause recorded for a retryable outcome.
pub open spec fn spec_cause(o: Outcome) -> Cause {
    match o {
        Outcome::Response(r) => if spec_is_rate_limited(r.status) {
            Cause::RateLimited
        } else {
            Cause::ServerError(r.status)
        },
        Outcome::TransportFailure(m) => Cause::Transport(m),
    }
}

/// The backoff taken before retrying `o`: for a 429, the `Retry-After`
/// value when it is a non-empty digit string denoting a positive number
/// that fits in a `u64`, else the rate-limit default; for everything else
/// the server-error default.
pub open spec fn spec_backoff_secs(o: Outcome) -> u64 {
    match o {
        Outcome::Response(r) => if spec_is_rate_limited(r.status) {
            match r.retry_after {
                Some(h) => if h@.len() > 0 && all_digits(h@) && 0 < dec_value(h@)
                    && dec_value(h@) <= u64::MAX {
                    dec_value(h@) as u64
                } else {
                    RATE_LIMIT_BACKOFF_SECS
                },
                None => RATE_LIMIT_BACKOFF_SECS,
            }
        } else {
            SERVER_ERROR_BACKOFF_SECS
        },
        Outcome::TransportFailure(_) => SERVER_ERROR_BACKOFF_SECS,
    }
}

/// The verdict on an outcome, as a whole: success for 2xx, retry with the
/// policy's backoff and cause for 429, 5xx and transport failures, and a
/// terminal failure for every other status.
pub open spec fn spec_class(o: Outcome) -> Class {
    match o {
        Outcome::Response(r) => if spec_is_success(r.status) {
            Class::Success(r.body)
        } else if spec_retryable(o) {
            Class::Retry { secs: spec_backoff_secs(o), cause: spec_cause(o) }
        } else {
            Class::Fatal(r.status)
        },
        Outcome::TransportFailure(_) => Class::Retry {
            secs: spec_backoff_secs(o),
            cause: spec_cause(o),
        },
    }
}

/// Classifies one attempt's outcome according to the retry policy.
pub fn classify(o: Outcome) -> (c: Class)
    ensures
        c == spec_class(o),
{
    match o {
        Outcome::Response(r) => {
            if 200 <= r.status && r.status < 300 {
                Class::Success(r.body)
            } else if r.status == 429 {
                let secs: u64 = match &r.retry_after {
                    Some(h) => {
                        match parse_u64(h.as_str()) {
                            Some(n) => if n > 0 {
                                n
                            } else {
                                RATE_LIMIT_BACKOFF_SECS
                            },
                            None => RATE_LIMIT_BACKOFF_SECS,
                        }
                    },
                    None => RATE_LIMIT_BACKOFF_SECS,
                };
                Class::Retry { secs, cause: Cause::RateLimited }
            } else if 500 <= r.status && r.status < 600 {
                Class::Retry { secs: SERVER_ERROR_BACKOFF_SECS, cause: Cause::ServerError(r.status) }
            } else {
                Class::Fatal(r.status)
            }
        },
        Outcome::TransportFailure(m) => Class::Retry {
            secs: SERVER_ERROR_BACKOFF_SECS,
            cause: Cause::Transport(m),
        },
    }
}

} // verus!

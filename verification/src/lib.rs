//! A verified session/request engine for a JSON-over-HTTP music-streaming API.
//!
//! The engine authenticates a user by password or by device-code pairing,
//! keeps a bearer token fresh, throttles outbound calls through a
//! sliding-window rate limiter, and classifies transport outcomes under a
//! bounded linear-backoff retry policy.  Everything that touches the network
//! hands the engine plain values (status codes and body text) and receives
//! plain values back, so the whole decision core is verified.

use vstd::prelude::*;

pub mod client;
pub mod errors;
pub mod executor;
pub mod parse;
pub mod rate;
pub mod responses;
pub mod session;

verus! {

/// Seconds before a token's expiry at which a refresh is attempted.
pub const TOKEN_REFRESH_THRESHOLD_SECS: u64 = 300;

/// Retries allowed beyond the first attempt of a request.
pub const MAX_RETRIES: u32 = 3;

/// Base backoff delay in seconds; attempt `n` waits `n` times this.
pub const RETRY_DELAY_SECS: u64 = 1;

/// Length of the rate limiter's counting window, in seconds.
pub const RATE_LIMIT_WINDOW_SECS: u64 = 60;

/// Requests admitted per rate-limit window.
pub const MAX_REQUESTS_PER_WINDOW: u32 = 60;

} // verus!

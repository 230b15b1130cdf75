//! Admission control for a request-serving front end.
//!
//! Every client owns a bucket of tokens that refills at a fixed rate up to a
//! fixed capacity; a request is admitted when it can take one whole token.
//! Token amounts are fixed-point integers, so every quantity the engine
//! reports is exact: nothing is ever rounded towards more capacity than the
//! bucket really holds.
//!
//! - [`bucket`]: the token bucket of one client.
//! - [`runs`]: what holds of every run of checks on one bucket.
//! - [`limiter`]: the limiter capability and the in-process limiter.
//! - [`history`]: what holds of every history of checks on a limiter.
//! - [`middleware`]: client identification and the response to a decision.
//! - [`decimal`]: decimal text for response headers.
//! - [`clock`]: the monotonic clock that an in-process limiter reads.
//! - [`upload`]: the rules of the upload endpoints that the limiter fronts.

pub mod bucket;
pub mod clock;
pub mod decimal;
pub mod history;
pub mod limiter;
pub mod middleware;
pub mod runs;
pub mod upload;

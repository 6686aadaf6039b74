//! Request-gatekeeping core for an HTTP mail API: a token authentication
//! engine that verifies bearer tokens against a rotating signing-key set
//! and evaluates a structured permission model, and a sliding-window rate
//! limiter.
//!
//! Network fetches, the clock and the HTTP frame stay with the caller;
//! every decision here is a function of plain values and carries a
//! contract.
#![verifier::loop_isolation(false)]

pub mod strutil;
pub mod perms;
pub mod claims;
pub mod token;
pub mod keys;
pub mod auth_flow;
pub mod rate_limit;
pub mod responses;
pub mod messages;

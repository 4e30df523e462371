//! Verified core of a serverless-function worker: the gateway handshake
//! protocol, the two-tier function artifact cache with opportunistic
//! precompilation, and the per-connection execution state machines.

pub mod artifact;
pub mod bytes;
pub mod cache;
pub mod connection;
pub mod fetcher;
pub mod function_id;
pub mod handshake;
pub mod intrinsics;
pub mod logging;

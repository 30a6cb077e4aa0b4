//! Throughput measurement for a JSON-RPC endpoint: the rules of one timed
//! send/confirm run, the blockhash cache, and the arithmetic on run metrics.
//!
//! Nothing here performs I/O or reads a clock. Every function takes what was
//! observed (a clock reading, a reply of the server) as a plain value and
//! returns what to do next, so that each rule carries a proved contract.

pub mod blockhash;
pub mod client;
pub mod engine;
pub mod error;
pub mod factory;
pub mod funding;
pub mod metrics;
pub mod pending;
pub mod time;

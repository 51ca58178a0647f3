//! A verified client core for a blockchain full node's HTTP control-plane
//! API: the request descriptions each endpoint builds, the shared
//! response-processing step, and the workflows composed on top of them —
//! exhaustive paginated box retrieval, greedy coin selection,
//! sign-then-submit, and key and script resolution.

pub mod chain;
pub mod codec;
pub mod node;

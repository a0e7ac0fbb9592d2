//! Tracking of the verified wasm and registration messages of a block: the
//! messages of a transaction that the enclave will later execute are queued in
//! the order in which they appear, and are handed out one at a time.

pub mod tx;
pub mod wasm_messages;
pub mod laws;

//! Supply-chain provenance records: the payload model, its JSON codec, the
//! rules that link records into chains, and the metric sampling session.
pub mod block_payload;
pub mod json;
pub mod error;
pub mod codec;
pub mod chain;
pub mod sampler;
pub mod session;

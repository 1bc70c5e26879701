//! An authenticating gateway: credential checks with a time- and size-bounded
//! cache of trust decisions, request framing, and the per-connection admission
//! decisions, plus the proof object and payload helpers around it.

pub mod client;
pub mod credential;
pub mod decimal;
mod draw;
pub mod kernel;
pub mod pipeline;
pub mod request;
pub mod trust_cache;
pub mod verification;

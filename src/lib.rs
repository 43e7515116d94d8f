//! Caching helper for exec-based cluster authentication: decides whether a
//! cached credential can be handed out again, checks the output of the
//! authentication helper, and frames the credential documents that are
//! printed and persisted.

pub mod codec;
pub mod credential;
pub mod json;
pub mod session;
pub mod validity;

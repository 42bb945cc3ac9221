//! A nickname registry: callers register a nickname with two identity handles,
//! and the owner recorded at initialization endorses or withdraws endorsement
//! of registered nicknames. State lives in a configuration slot and a bucket of
//! records keyed by nickname.

pub mod error;
pub mod storage;
pub mod state;
pub mod msg;
pub mod contract;
pub mod laws;

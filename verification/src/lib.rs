//! Verified core of a settlement committer: it orders operations by nonce,
//! replays what the chain has not confirmed, and shapes each operation into
//! the contract call that settles it.

pub mod committer;
pub mod dispatch;
pub mod encoding;
pub mod errors;
pub mod laws;
pub mod operation;
pub mod recovery;
pub mod words;

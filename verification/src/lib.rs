//! A single-operator secret vault driven over a serial byte protocol.
//!
//! A session binds a freshly generated two-digit PIN to a vault, then gates a
//! fixed secret behind PIN entry: the vault moves from unbound to locked to
//! unlocked, and every transition is a move that consumes the previous state.
//! The wire protocol is a small ASCII frame grammar; frames are validated
//! byte by byte so that a malformed byte is rejected as soon as it arrives.

pub mod parser;
pub mod pin;
pub mod session;
pub mod vault;

//! Stable error codes for `new Error(...)` sites: message templates, occurrence
//! counting, code composition and the registry protocol.

pub mod code;
pub mod digits;
pub mod message;
pub mod occurrences;
pub mod registry;
pub mod transform;

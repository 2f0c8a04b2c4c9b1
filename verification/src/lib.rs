//! Read-only git inspection for drafting commit messages: the decisions
//! around each git invocation, with the process itself left to the caller.

pub mod executor;
pub mod laws;
pub mod params;
pub mod session;
pub mod text;

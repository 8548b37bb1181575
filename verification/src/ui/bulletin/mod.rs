//! The Railway Bulletin: the Region's developments, newest first.

pub mod detail;
pub mod filter;
pub mod format;
pub mod header;
pub mod laws;
pub mod layout;
pub mod log;

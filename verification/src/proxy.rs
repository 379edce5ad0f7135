//! Proxy redirection: the stable address behind which the active
//! implementation is replaced by an admin-gated upgrade.

pub mod implementation;
pub mod storage;
pub mod types;

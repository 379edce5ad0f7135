//! Governed upgrade: proposals, weighted voting against a quorum, authorized
//! execution with an optional migration step, emergency bypass and rollback.

pub mod logic;
pub mod storage;
pub mod types;

//! Plugin-backed execution algorithms: the values that cross the sandbox boundary and
//! the host-side bookkeeping around a sandboxed plugin.

pub mod adapter;
pub mod protocol;

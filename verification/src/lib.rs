//! Verified core of a byte-concatenating utility.
//!
//! The library models the decision layer of a `cat`-style program: probing
//! results for open handles, buffer sizing, the same-file guard, copy-strategy
//! selection, the copy engine's state machine, and the per-source driver
//! bookkeeping. The process boundary (argument parsing, opening files, the
//! read/write/flush system calls) lives outside the library and feeds plain
//! values in.

pub mod chunks;
pub mod diag;
pub mod driver;
pub mod engine;
pub mod guard;
pub mod sizer;
pub mod stat;
pub mod strategy;

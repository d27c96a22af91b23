//! Metadata about an open byte handle, as the kernel reports it.
//!
//! A `StatInfo` carries the fields of a `stat` result that the policy layer
//! reads: the file kind, the (device, inode) identity, the size in bytes and,
//! for FIFOs, the kernel pipe capacity. The process boundary fills one in
//! from a real metadata query and hands it to the verified functions.

use vstd::prelude::*;

verus! {

/// The kind of object behind a handle, as far as the policy layer cares.
#[derive(Clone, Copy, Debug, PartialEq, Eq, Structural)]
pub enum FileKind {
    /// A regular file.
    Regular,
    /// A named or anonymous pipe with bounded kernel capacity.
    Fifo,
    /// Anything else: character device, directory, socket, ...
    Other,
}

/// Kernel metadata for one open handle.
#[derive(Clone, Copy, Debug, PartialEq, Eq, Structural)]
pub struct StatInfo {
    /// File kind.
    pub kind: FileKind,
    /// Device identifier of the containing filesystem.
    pub dev: u64,
    /// Inode number on that device.
    pub ino: u64,
    /// Size in bytes (meaningful for regular files).
    pub size: u64,
    /// Kernel pipe capacity in bytes; meaningful only when `kind` is `Fifo`.
    pub pipe_capacity: u64,
}

impl StatInfo {
    /// A probe result is well formed when a FIFO reports a positive pipe
    /// capacity, as the kernel guarantees (the capacity is at least one page).
    pub open spec fn wf(self) -> bool {
        self.kind == FileKind::Fifo ==> self.pipe_capacity > 0
    }
}

} // verus!

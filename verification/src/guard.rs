//! The same-file guard: refuse a copy that would feed a file into itself.
//!
//! A source must not be copied onto the very storage object it is read from:
//! with the sink open for writing, the copy would grow the file it consumes.
//! Two probes denote the same object exactly when both are regular files on
//! the same device with the same inode. An empty source is exempt: copying
//! nothing onto itself is a no-op, so historical behavior allows it.

use vstd::prelude::*;

use crate::stat::{FileKind, StatInfo};

verus! {

/// When a source and the sink denote the same underlying storage object in
/// the sense the guard refuses: both regular, same (device, inode) identity,
/// and the source nonempty.
pub open spec fn same_object(src: StatInfo, sink: StatInfo) -> bool {
    &&& src.kind == FileKind::Regular
    &&& sink.kind == FileKind::Regular
    &&& src.dev == sink.dev
    &&& src.ino == sink.ino
    &&& src.size != 0
}

/// The guard itself: `true` means refuse the copy.
///
/// Refuses exactly the nonempty regular source whose (device, inode) equals
/// the sink's; an empty self-copy, or any pairing that involves a FIFO or
/// other kind, is allowed through.
pub fn is_same_file(src: &StatInfo, sink: &StatInfo) -> (refuse: bool)
    ensures
        refuse == same_object(*src, *sink),
{
    src.kind == FileKind::Regular && sink.kind == FileKind::Regular && src.dev == sink.dev
        && src.ino == sink.ino && src.size != 0
}

} // verus!

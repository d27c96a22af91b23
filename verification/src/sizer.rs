//! The buffer sizer: pick the transfer buffer size for a (source, sink) pair.
//!
//! Each side contributes a preferred size: the kernel pipe capacity for a
//! FIFO, a 128 KiB default otherwise. The chosen size is the minimum of the
//! two — reading more than a pipe's capacity per round would only force
//! partial writes — and must be a multiple of the page size; when it is not,
//! the sizer falls back to sixteen pages.

use vstd::arithmetic::div_mod::lemma_mod_multiples_basic;
use vstd::prelude::*;

use crate::stat::{FileKind, StatInfo};

verus! {

/// Default transfer buffer size in bytes: 128 KiB, thirty-two 4 KiB pages.
pub const IO_BUFSIZE: u64 = 131072;

/// The size one side of the transfer asks for: a FIFO asks for its kernel
/// pipe capacity, anything else for the 128 KiB default.
pub open spec fn side_size(s: StatInfo) -> u64 {
    if s.kind == FileKind::Fifo {
        s.pipe_capacity
    } else {
        IO_BUFSIZE
    }
}

/// The buffer size policy: the minimum of the two sides' asks, page-aligned,
/// with a sixteen-page fallback when the minimum is not a page multiple.
pub open spec fn chosen_size(src: StatInfo, sink: StatInfo, page: u64) -> int {
    let b = if side_size(src) <= side_size(sink) {
        side_size(src)
    } else {
        side_size(sink)
    };
    if b % page == 0 {
        b as int
    } else {
        16 * page
    }
}

/// Compute the transfer buffer size for one (source, sink) pair.
///
/// The page size must be positive and small enough that sixteen pages fit in
/// a `u64`; every page size a kernel reports satisfies that.
pub fn buffer_size(src: &StatInfo, sink: &StatInfo, page: u64) -> (b: u64)
    requires
        src.wf(),
        sink.wf(),
        0 < page <= 0x1000_0000,
    ensures
        b as int == chosen_size(*src, *sink, page),
        b > 0,
        b % page == 0,
{
    let src_ask: u64 = if src.kind == FileKind::Fifo {
        src.pipe_capacity
    } else {
        IO_BUFSIZE
    };
    let sink_ask: u64 = if sink.kind == FileKind::Fifo {
        sink.pipe_capacity
    } else {
        IO_BUFSIZE
    };
    let smaller: u64 = if src_ask <= sink_ask {
        src_ask
    } else {
        sink_ask
    };
    if smaller % page == 0 {
        smaller
    } else {
        proof {
            lemma_mod_multiples_basic(16, page as int);
        }
        16 * page
    }
}

/// Buffer alignment law: for every pair of well-formed probes and every
/// positive page size, the chosen buffer size is a positive multiple of the
/// page size.
pub proof fn lemma_buffer_alignment(src: StatInfo, sink: StatInfo, page: u64)
    requires
        src.wf(),
        sink.wf(),
        page > 0,
    ensures
        chosen_size(src, sink, page) > 0,
        chosen_size(src, sink, page) % (page as int) == 0,
{
    lemma_mod_multiples_basic(16, page as int);
}

} // verus!

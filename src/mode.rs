//! Switching a tracer's control channel between blocking and non-blocking
//! mode, and back.
use vstd::prelude::*;
use crate::numbers::O_NONBLOCK;

verus! {

/// The file-status flags that make a channel with flags `old` non-blocking.
pub fn nonblocking_flags(old: usize) -> (r: usize)
    ensures
        r == old | O_NONBLOCK,
{
    old | O_NONBLOCK
}

/// The file-status flags that return a channel to blocking mode.
pub open spec fn restored(saved: Option<usize>, current: usize) -> usize {
    match saved {
        Some(f) => f,
        None => current & !O_NONBLOCK,
    }
}

/// The flags to restore when going back to blocking mode: the flags saved
/// when the tracer was made non-blocking, or, for a tracer opened
/// non-blocking, its current flags without the non-blocking bit.
pub fn restored_flags(saved: Option<usize>, current: usize) -> (r: usize)
    ensures
        r == restored(saved, current),
{
    match saved {
        Some(f) => f,
        None => current & !O_NONBLOCK,
    }
}

/// Making a tracer non-blocking and then blocking again restores the flags
/// it had exactly, whatever the flags read back in between.
pub proof fn lemma_round_trip(before: usize, current: usize)
    ensures
        restored(Some(before), current) == before,
        restored(Some(before), before | O_NONBLOCK) == before,
{
}

/// A tracer opened non-blocking goes back to blocking mode: the restored
/// flags lack the non-blocking bit and keep every other bit.
pub proof fn lemma_opened_nonblocking(current: usize)
    ensures
        restored(None, current) & O_NONBLOCK == 0,
        restored(None, current) | (current & O_NONBLOCK) == current,
{
    let r = current & !0x0004_0000usize;
    assert(r & 0x0004_0000usize == 0) by (bit_vector)
        requires
            r == current & !0x0004_0000usize,
    ;
    assert(r | (current & 0x0004_0000usize) == current) by (bit_vector)
        requires
            r == current & !0x0004_0000usize,
    ;
}

} // verus!

//! Stop, event and control flags of a trace request.
use vstd::prelude::*;

verus! {

/// A set of trace flags, packed as bits.
#[derive(Clone, Copy, Debug, PartialEq, Eq, Structural, Hash)]
pub struct Flags {
    pub bits: u64,
}

pub const STOP_PRE_SYSCALL_BITS: u64 = 0x0000_0000_0000_0001;
pub const STOP_POST_SYSCALL_BITS: u64 = 0x0000_0000_0000_0002;
pub const STOP_SINGLESTEP_BITS: u64 = 0x0000_0000_0000_0004;
pub const STOP_SIGNAL_BITS: u64 = 0x0000_0000_0000_0008;
pub const STOP_BREAKPOINT_BITS: u64 = 0x0000_0000_0000_0010;
pub const STOP_EXIT_BITS: u64 = 0x0000_0000_0000_0020;
pub const STOP_ALL_BITS: u64 = STOP_PRE_SYSCALL_BITS | STOP_POST_SYSCALL_BITS
    | STOP_SINGLESTEP_BITS | STOP_SIGNAL_BITS | STOP_BREAKPOINT_BITS | STOP_EXIT_BITS;
pub const EVENT_CLONE_BITS: u64 = 0x0000_0000_0000_0100;
pub const EVENT_ALL_BITS: u64 = EVENT_CLONE_BITS;
pub const FLAG_IGNORE_BITS: u64 = 0x0000_0000_0000_1000;
pub const FLAG_ALL_BITS: u64 = FLAG_IGNORE_BITS;
/// What a syscall tracer asks for: every stop but single steps, and every
/// event.
pub const TRACE_BITS: u64 = (STOP_ALL_BITS & !STOP_SINGLESTEP_BITS) | EVENT_ALL_BITS;
/// Every bit that some flag stands for.
pub const KNOWN_BITS: u64 = STOP_ALL_BITS | EVENT_ALL_BITS | FLAG_ALL_BITS;

impl Flags {
    pub fn stop_pre_syscall() -> (r: Flags)
        ensures
            r.bits == STOP_PRE_SYSCALL_BITS,
    {
        Flags { bits: STOP_PRE_SYSCALL_BITS }
    }

    pub fn stop_post_syscall() -> (r: Flags)
        ensures
            r.bits == STOP_POST_SYSCALL_BITS,
    {
        Flags { bits: STOP_POST_SYSCALL_BITS }
    }

    pub fn stop_singlestep() -> (r: Flags)
        ensures
            r.bits == STOP_SINGLESTEP_BITS,
    {
        Flags { bits: STOP_SINGLESTEP_BITS }
    }

    pub fn stop_signal() -> (r: Flags)
        ensures
            r.bits == STOP_SIGNAL_BITS,
    {
        Flags { bits: STOP_SIGNAL_BITS }
    }

    pub fn stop_breakpoint() -> (r: Flags)
        ensures
            r.bits == STOP_BREAKPOINT_BITS,
    {
        Flags { bits: STOP_BREAKPOINT_BITS }
    }

    pub fn stop_exit() -> (r: Flags)
        ensures
            r.bits == STOP_EXIT_BITS,
    {
        Flags { bits: STOP_EXIT_BITS }
    }

    pub fn stop_all() -> (r: Flags)
        ensures
            r.bits == STOP_ALL_BITS,
    {
        Flags { bits: STOP_ALL_BITS }
    }

    pub fn event_clone() -> (r: Flags)
        ensures
            r.bits == EVENT_CLONE_BITS,
    {
        Flags { bits: EVENT_CLONE_BITS }
    }

    pub fn event_all() -> (r: Flags)
        ensures
            r.bits == EVENT_ALL_BITS,
    {
        Flags { bits: EVENT_ALL_BITS }
    }

    pub fn flag_ignore() -> (r: Flags)
        ensures
            r.bits == FLAG_IGNORE_BITS,
    {
        Flags { bits: FLAG_IGNORE_BITS }
    }

    /// What a syscall tracer asks for: every stop but single steps, and
    /// every event.
    pub fn trace() -> (r: Flags)
        ensures
            r.bits == TRACE_BITS,
    {
        Flags { bits: TRACE_BITS }
    }

    pub fn bits(&self) -> (r: u64)
        ensures
            r == self.bits,
    {
        self.bits
    }

    /// The flags of `bits`, with bits that no flag stands for dropped.
    pub fn from_bits_truncate(bits: u64) -> (r: Flags)
        ensures
            r.bits == bits & KNOWN_BITS,
    {
        Flags { bits: bits & KNOWN_BITS }
    }

    pub fn empty() -> (r: Flags)
        ensures
            r.bits == 0,
    {
        Flags { bits: 0 }
    }

    pub fn union(&self, other: Flags) -> (r: Flags)
        ensures
            r.bits == self.bits | other.bits,
    {
        Flags { bits: self.bits | other.bits }
    }

    pub fn intersection(&self, other: Flags) -> (r: Flags)
        ensures
            r.bits == self.bits & other.bits,
    {
        Flags { bits: self.bits & other.bits }
    }

    /// Whether every flag of `other` is in `self`.
    pub fn contains(&self, other: Flags) -> (r: bool)
        ensures
            r == (self.bits & other.bits == other.bits),
    {
        self.bits & other.bits == other.bits
    }

    pub fn is_empty(&self) -> (r: bool)
        ensures
            r == (self.bits == 0),
    {
        self.bits == 0
    }

    /// The request written to the control channel: the bits as eight
    /// little-endian bytes.
    pub fn request_bytes(&self) -> (r: Vec<u8>)
        ensures
            r@.len() == 8,
            forall|k: int| 0 <= k < 8 ==> r@[k] == ((self.bits >> (8 * k) as u64) & 0xff) as u8,
    {
        let mut out: Vec<u8> = Vec::new();
        let mut k: u64 = 0;
        while k < 8
            invariant
                k <= 8,
                out@.len() == k,
                forall|j: int| 0 <= j < k ==> out@[j] == ((self.bits >> (8 * j) as u64) & 0xff) as u8,
            decreases 8 - k,
        {
            let bits = self.bits;
            let byte = (bits >> (8 * k)) & 0xff;
            assert(byte <= 0xff) by (bit_vector)
                requires
                    byte == (bits >> (8 * k)) & 0xff,
            ;
            out.push(byte as u8);
            k += 1;
        }
        out
    }
}

} // verus!

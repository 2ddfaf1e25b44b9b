//! Process-tracing engine: the tracer's request/wait protocol, event record
//! framing, register record decoding, syscall rendering and the bookkeeping
//! of a supervisor that follows many tracees.
//!
//! The channels to the kernel are not touched here: callers read and write
//! them and hand the bytes in. Where rendering a call needs tracee memory,
//! the decoder lists the reads it wants and takes their results.
use vstd::prelude::*;

pub mod cli;
pub mod decode;
pub mod event;
pub mod f80;
pub mod flags;
pub mod mode;
pub mod numbers;
pub mod outcome;
pub mod platform;
pub mod regs;
pub mod supervisor;
pub mod text;

pub use cli::{parse_args, ArgError, Opt};
pub use decode::{
    decode_call, first_reads, format_call, format_call_bare, second_reads, DecodedCall, MemRead,
    RawCall,
};
pub use event::{decode_batch, drain, Drained, Event, EventData, RawEvent, TraceSession};
pub use f80::f80_to_f64_bits;
pub use flags::Flags;
pub use outcome::{demux, format_return, Outcome};
pub use regs::{FloatRegisters, IntRegisters};
pub use supervisor::{classify, Action, Registry};

verus! {

/// A process identifier.
pub type Pid = usize;

} // verus!

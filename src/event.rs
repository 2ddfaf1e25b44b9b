//! Trace events: the fixed-size records read from the control channel, their
//! classification, and the wait protocol that drains them.
use vstd::prelude::*;
use crate::decode::le_u64;
use crate::flags::{
    Flags, EVENT_ALL_BITS, EVENT_CLONE_BITS, KNOWN_BITS, STOP_EXIT_BITS, STOP_SIGNAL_BITS,
};

verus! {

/// Size in bytes of one event record: the cause word, then six data words.
pub const EVENT_RECORD_SIZE: usize = 56;

/// An event record as the control channel holds it.
#[derive(Clone, Copy, Debug, PartialEq, Eq, Structural)]
pub struct RawEvent {
    pub cause: u64,
    pub a: usize,
    pub b: usize,
    pub c: usize,
    pub d: usize,
    pub e: usize,
    pub f: usize,
}

/// What an event carries, by its cause.
#[derive(Clone, Copy, Debug, PartialEq, Eq, Structural, Hash)]
pub enum EventData {
    /// The new child's process id.
    EventClone(usize),
    /// Signal number and signal code.
    StopSignal(usize, usize),
    /// Exit code.
    StopExit(usize),
    /// The six raw words of any other cause.
    Unknown(usize, usize, usize, usize, usize, usize),
}

/// One stop or event of a tracee.
#[derive(Clone, Copy, Debug, PartialEq, Eq, Structural, Hash)]
pub struct Event {
    pub cause: Flags,
    pub data: EventData,
}

/// The event that a record stands for: its cause with unknown bits dropped,
/// and its data read by the exact cause.
pub open spec fn event_of(raw: RawEvent) -> Event {
    Event {
        cause: Flags { bits: raw.cause & KNOWN_BITS },
        data: if raw.cause == EVENT_CLONE_BITS {
            EventData::EventClone(raw.a)
        } else if raw.cause == STOP_SIGNAL_BITS {
            EventData::StopSignal(raw.a, raw.b)
        } else if raw.cause == STOP_EXIT_BITS {
            EventData::StopExit(raw.a)
        } else {
            EventData::Unknown(raw.a, raw.b, raw.c, raw.d, raw.e, raw.f)
        },
    }
}

impl Event {
    pub fn new(inner: RawEvent) -> (r: Event)
        ensures
            r == event_of(inner),
    {
        Event {
            cause: Flags::from_bits_truncate(inner.cause),
            data: if inner.cause == EVENT_CLONE_BITS {
                EventData::EventClone(inner.a)
            } else if inner.cause == STOP_SIGNAL_BITS {
                EventData::StopSignal(inner.a, inner.b)
            } else if inner.cause == STOP_EXIT_BITS {
                EventData::StopExit(inner.a)
            } else {
                EventData::Unknown(inner.a, inner.b, inner.c, inner.d, inner.e, inner.f)
            },
        }
    }

    /// Whether this event ends a wait: its cause has a bit outside the
    /// event flags.
    pub fn is_terminal(&self) -> (r: bool)
        ensures
            r == terminal(*self),
    {
        self.cause.bits & EVENT_ALL_BITS != self.cause.bits
    }
}

pub open spec fn terminal(e: Event) -> bool {
    e.cause.bits & EVENT_ALL_BITS != e.cause.bits
}

/// The record at byte offset `off`.
pub open spec fn raw_at(b: Seq<u8>, off: int) -> RawEvent {
    RawEvent {
        cause: le_u64(b, off),
        a: le_u64(b, off + 8) as usize,
        b: le_u64(b, off + 16) as usize,
        c: le_u64(b, off + 24) as usize,
        d: le_u64(b, off + 32) as usize,
        e: le_u64(b, off + 40) as usize,
        f: le_u64(b, off + 48) as usize,
    }
}

/// The events of a batch of bytes: one per whole record; a trailing partial
/// record is ignored.
pub open spec fn batch_events(b: Seq<u8>) -> Seq<Event> {
    Seq::new(
        b.len() / (EVENT_RECORD_SIZE as nat),
        |k: int| event_of(raw_at(b, k * EVENT_RECORD_SIZE as int)),
    )
}

fn word_at(b: &[u8], off: usize) -> (r: u64)
    requires
        off + 8 <= b@.len(),
    ensures
        r == le_u64(b@, off as int),
{
    (b[off] as u64) | ((b[off + 1] as u64) << 8u64) | ((b[off + 2] as u64) << 16u64) | ((
    b[off + 3] as u64) << 24u64) | ((b[off + 4] as u64) << 32u64) | ((b[off + 5] as u64)
        << 40u64) | ((b[off + 6] as u64) << 48u64) | ((b[off + 7] as u64) << 56u64)
}

impl RawEvent {
    /// The record at byte offset `off` of `b`.
    pub fn read_at(b: &[u8], off: usize) -> (r: RawEvent)
        requires
            off + EVENT_RECORD_SIZE <= b@.len(),
        ensures
            r == raw_at(b@, off as int),
    {
        let len = b.len();
        assert(off + EVENT_RECORD_SIZE <= len);
        RawEvent {
            cause: word_at(b, off),
            a: word_at(b, off + 8) as usize,
            b: word_at(b, off + 16) as usize,
            c: word_at(b, off + 24) as usize,
            d: word_at(b, off + 32) as usize,
            e: word_at(b, off + 40) as usize,
            f: word_at(b, off + 48) as usize,
        }
    }
}

/// Splits the bytes of one read of the control channel into events.
pub fn decode_batch(b: &[u8]) -> (r: Vec<Event>)
    ensures
        r@ == batch_events(b@),
{
    let len = b.len();
    let n = len / EVENT_RECORD_SIZE;
    let mut out: Vec<Event> = Vec::new();
    let mut k: usize = 0;
    while k < n
        invariant
            len == b@.len(),
            n == len / EVENT_RECORD_SIZE,
            k <= n,
            out@ =~= batch_events(b@).take(k as int),
        decreases n - k,
    {
        assert(k * 56 + 56 <= len) by (nonlinear_arith)
            requires
                k < n,
                n == len / 56,
        ;
        let raw = RawEvent::read_at(b, k * EVENT_RECORD_SIZE);
        out.push(Event::new(raw));
        k += 1;
    }
    out
}

/// A batch split at its first terminal event.
pub struct Drained {
    /// The non-terminal events before it, for the caller's handler.
    pub reported: Vec<Event>,
    /// The first terminal event, if the batch has one.
    pub terminal: Option<Event>,
    /// The events after it.
    pub rest: Vec<Event>,
}

/// `reported`, `terminal` and `rest` split `batch` at its first terminal
/// event; without one, everything is reported.
pub open spec fn drained_from(d: (Seq<Event>, Option<Event>, Seq<Event>), batch: Seq<Event>) -> bool {
    let (reported, term, rest) = d;
    &&& reported == batch.take(reported.len() as int)
    &&& forall|j: int| 0 <= j < reported.len() ==> !terminal(#[trigger] reported[j])
    &&& match term {
        Some(t) => {
            &&& reported.len() < batch.len()
            &&& t == batch[reported.len() as int]
            &&& terminal(t)
            &&& rest == batch.skip(reported.len() as int + 1)
        },
        None => reported.len() == batch.len() && rest.len() == 0,
    }
}

impl View for Drained {
    type V = (Seq<Event>, Option<Event>, Seq<Event>);

    open spec fn view(&self) -> (Seq<Event>, Option<Event>, Seq<Event>) {
        (self.reported@, self.terminal, self.rest@)
    }
}

/// Splits a batch at its first terminal event.
pub fn drain(batch: &Vec<Event>) -> (r: Drained)
    ensures
        drained_from(r@, batch@),
{
    let mut reported: Vec<Event> = Vec::new();
    let mut i: usize = 0;
    while i < batch.len()
        invariant
            i <= batch@.len(),
            reported@ == batch@.take(i as int),
            forall|j: int| 0 <= j < i ==> !terminal(#[trigger] batch@[j]),
        decreases batch@.len() - i,
    {
        if batch[i].is_terminal() {
            let mut rest: Vec<Event> = Vec::new();
            let mut k: usize = i + 1;
            while k < batch.len()
                invariant
                    i < k <= batch@.len(),
                    rest@ == batch@.subrange(i + 1, k as int),
                decreases batch@.len() - k,
            {
                rest.push(batch[k]);
                assert(rest@ =~= batch@.subrange(i + 1, k + 1));
                k += 1;
            }
            assert(rest@ =~= batch@.skip(i + 1));
            return Drained { reported, terminal: Some(batch[i]), rest };
        }
        reported.push(batch[i]);
        assert(reported@ =~= batch@.take(i + 1));
        i += 1;
    }
    assert(batch@.take(i as int) =~= batch@);
    Drained { reported, terminal: None, rest: Vec::new() }
}

/// Whether any event of `events` is terminal.
pub fn has_terminal(events: &Vec<Event>) -> (r: bool)
    ensures
        r == exists|j: int| 0 <= j < events@.len() && terminal(#[trigger] events@[j]),
{
    let mut i: usize = 0;
    while i < events.len()
        invariant
            i <= events@.len(),
            forall|j: int| 0 <= j < i ==> !terminal(#[trigger] events@[j]),
        decreases events@.len() - i,
    {
        if events[i].is_terminal() {
            return true;
        }
        i += 1;
    }
    false
}

/// Where a tracer stands in the request/wait protocol.
#[derive(Clone, Copy, Debug, PartialEq, Eq, Structural)]
pub enum WaitState {
    /// No stop request is outstanding.
    Idle,
    /// A stop request was written and no terminal event has come yet.
    AwaitingStop,
}

/// Why a batch could not be taken.
#[derive(Clone, Copy, Debug, PartialEq, Eq, Structural)]
pub enum ProtocolError {
    /// A batch arrived while no stop request was outstanding.
    NotWaiting,
    /// A terminal event followed another one in the same batch.
    SecondTerminal,
}

/// The request/wait protocol of one tracer.
pub struct TraceSession {
    pub state: WaitState,
}

impl TraceSession {
    pub fn new() -> (r: TraceSession)
        ensures
            r.state == WaitState::Idle,
    {
        TraceSession { state: WaitState::Idle }
    }

    /// Issues a stop request: returns the bytes to write to the control
    /// channel and waits for a stop.
    pub fn request(&mut self, flags: Flags) -> (r: Vec<u8>)
        ensures
            final(self).state == WaitState::AwaitingStop,
            r@.len() == 8,
            forall|k: int| 0 <= k < 8 ==> r@[k] == ((flags.bits >> (8 * k) as u64) & 0xff) as u8,
    {
        self.state = WaitState::AwaitingStop;
        flags.request_bytes()
    }

    /// Takes one batch read from the control channel. Its non-terminal
    /// events before the first terminal one go to the handler; a terminal
    /// event ends the wait. A batch with a second terminal event breaks the
    /// protocol and changes nothing.
    pub fn take_batch(&mut self, batch: &Vec<Event>) -> (r: Result<Drained, ProtocolError>)
        ensures
            old(self).state == WaitState::Idle ==> r == Err::<Drained, ProtocolError>(
                ProtocolError::NotWaiting,
            ) && *final(self) == *old(self),
            old(self).state == WaitState::AwaitingStop ==> match r {
                Ok(d) => {
                    &&& drained_from(d@, batch@)
                    &&& (forall|j: int| 0 <= j < d.rest@.len() ==> !terminal(#[trigger] d.rest@[j]))
                    &&& final(self).state == (if d.terminal is Some {
                        WaitState::Idle
                    } else {
                        WaitState::AwaitingStop
                    })
                },
                Err(e) => {
                    &&& e == ProtocolError::SecondTerminal
                    &&& *final(self) == *old(self)
                    &&& exists|i: int, j: int|
                        0 <= i < j < batch@.len() && terminal(#[trigger] batch@[i]) && terminal(
                            #[trigger] batch@[j],
                        )
                },
            },
    {
        match self.state {
            WaitState::Idle => Err(ProtocolError::NotWaiting),
            WaitState::AwaitingStop => {
                let d = drain(batch);
                if has_terminal(&d.rest) {
                    proof {
                        let j = choose|j: int| 0 <= j < d.rest@.len() && terminal(#[trigger] d.rest@[j]);
                        let i = d.reported@.len() as int;
                        assert(batch@[i + 1 + j] == d.rest@[j]);
                        assert(terminal(batch@[i]));
                        assert(terminal(batch@[i + 1 + j]));
                    }
                    Err(ProtocolError::SecondTerminal)
                } else {
                    if d.terminal.is_some() {
                        self.state = WaitState::Idle;
                    }
                    Ok(d)
                }
            },
        }
    }
}

} // verus!

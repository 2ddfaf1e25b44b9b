use strace::event::{decode_batch, drain, Event, EventData, ProtocolError, RawEvent, TraceSession, WaitState};
use strace::flags::{Flags, EVENT_CLONE_BITS, STOP_BREAKPOINT_BITS, STOP_EXIT_BITS, STOP_SIGNAL_BITS};
use strace::mode::{nonblocking_flags, restored_flags};
use strace::numbers::O_NONBLOCK;

fn record(cause: u64, data: [u64; 6]) -> Vec<u8> {
    let mut v = cause.to_le_bytes().to_vec();
    for w in data {
        v.extend_from_slice(&w.to_le_bytes());
    }
    v
}

#[test]
fn events_classify_by_cause() {
    let clone = Event::new(RawEvent { cause: EVENT_CLONE_BITS, a: 42, b: 0, c: 0, d: 0, e: 0, f: 0 });
    assert_eq!(clone.data, EventData::EventClone(42));
    assert!(!clone.is_terminal());
    let sig = Event::new(RawEvent { cause: STOP_SIGNAL_BITS, a: 9, b: 1, c: 0, d: 0, e: 0, f: 0 });
    assert_eq!(sig.data, EventData::StopSignal(9, 1));
    assert!(sig.is_terminal());
    let exit = Event::new(RawEvent { cause: STOP_EXIT_BITS, a: 3, b: 0, c: 0, d: 0, e: 0, f: 0 });
    assert_eq!(exit.data, EventData::StopExit(3));
    let odd = Event::new(RawEvent { cause: 0x1_0000_0010, a: 1, b: 2, c: 3, d: 4, e: 5, f: 6 });
    assert_eq!(odd.cause, Flags::stop_breakpoint());
    assert_eq!(odd.data, EventData::Unknown(1, 2, 3, 4, 5, 6));
}

#[test]
fn batch_of_clones_then_breakpoint() {
    let mut bytes = Vec::new();
    for pid in [10u64, 11, 12] {
        bytes.extend(record(EVENT_CLONE_BITS, [pid, 0, 0, 0, 0, 0]));
    }
    bytes.extend(record(STOP_BREAKPOINT_BITS, [0; 6]));
    let batch = decode_batch(&bytes);
    assert_eq!(batch.len(), 4);

    let mut session = TraceSession::new();
    let request = session.request(Flags::stop_breakpoint());
    assert_eq!(request, STOP_BREAKPOINT_BITS.to_le_bytes().to_vec());
    assert_eq!(session.state, WaitState::AwaitingStop);

    let drained = session.take_batch(&batch).unwrap();
    let mut handled = Vec::new();
    for event in &drained.reported {
        handled.push(event.data);
    }
    assert_eq!(
        handled,
        vec![EventData::EventClone(10), EventData::EventClone(11), EventData::EventClone(12)]
    );
    let terminal = drained.terminal.unwrap();
    assert_eq!(terminal.cause, Flags::stop_breakpoint());
    assert!(drained.rest.is_empty());
    assert_eq!(session.state, WaitState::Idle);
}

#[test]
fn partial_record_is_ignored() {
    let mut bytes = record(STOP_EXIT_BITS, [1, 0, 0, 0, 0, 0]);
    bytes.extend_from_slice(&[0u8; 20]);
    let batch = decode_batch(&bytes);
    assert_eq!(batch.len(), 1);
    assert_eq!(batch[0].data, EventData::StopExit(1));
}

#[test]
fn batch_without_terminal_keeps_waiting() {
    let batch = decode_batch(&record(EVENT_CLONE_BITS, [5, 0, 0, 0, 0, 0]));
    let mut session = TraceSession::new();
    session.request(Flags::trace());
    let drained = session.take_batch(&batch).unwrap();
    assert_eq!(drained.reported.len(), 1);
    assert!(drained.terminal.is_none());
    assert_eq!(session.state, WaitState::AwaitingStop);
}

#[test]
fn second_terminal_is_a_protocol_violation() {
    let mut bytes = record(STOP_BREAKPOINT_BITS, [0; 6]);
    bytes.extend(record(EVENT_CLONE_BITS, [1, 0, 0, 0, 0, 0]));
    bytes.extend(record(STOP_EXIT_BITS, [0; 6]));
    let batch = decode_batch(&bytes);
    let d = drain(&batch);
    assert_eq!(d.reported.len(), 0);
    assert_eq!(d.rest.len(), 2);
    let mut session = TraceSession::new();
    session.request(Flags::trace());
    assert_eq!(session.take_batch(&batch).err(), Some(ProtocolError::SecondTerminal));
    assert_eq!(session.state, WaitState::AwaitingStop);
}

#[test]
fn batch_while_idle_is_refused() {
    let mut session = TraceSession::new();
    assert_eq!(session.take_batch(&vec![]).err(), Some(ProtocolError::NotWaiting));
}

#[test]
fn flags_operations() {
    let f = Flags::from_bits_truncate(0xffff_ffff);
    assert_eq!(f.bits(), 0x113f);
    assert!(f.contains(Flags::event_clone()));
    assert_eq!(Flags::trace().bits(), 0x13b);
    assert!(!Flags::trace().contains(Flags::stop_singlestep()));
    assert_eq!(Flags::stop_pre_syscall().union(Flags::stop_post_syscall()).bits(), 3);
    assert!(Flags::stop_exit().intersection(Flags::stop_signal()).is_empty());
    assert!(Flags::empty().is_empty());
}

#[test]
fn nonblocking_round_trip() {
    for old in [0usize, 2, 0x8002, O_NONBLOCK | 1] {
        let nb = nonblocking_flags(old);
        assert_eq!(nb & O_NONBLOCK, O_NONBLOCK);
        assert_eq!(restored_flags(Some(old), nb), old);
    }
    assert_eq!(restored_flags(None, O_NONBLOCK | 3), 3);
    assert_eq!(restored_flags(None, 3), 3);
}

use strace::event::{Event, EventData, RawEvent};
use strace::flags::{EVENT_CLONE_BITS, STOP_POST_SYSCALL_BITS, STOP_PRE_SYSCALL_BITS, STOP_SIGNAL_BITS};
use strace::supervisor::{classify, matched_call, watch_bytes, Action, Registry, WATCH_READ};

fn event(cause: u64, a: usize) -> Event {
    Event::new(RawEvent { cause, a, b: 0, c: 0, d: 0, e: 0, f: 0 })
}

#[test]
fn exits_match_entries_in_order() {
    let mut reg: Registry<u32> = Registry::new();
    let t = reg.register(1, 0);
    let mut matched = Vec::new();
    for name in ["open(\"a\")", "read(3)", "close(3)"] {
        assert_eq!(classify(&event(STOP_PRE_SYSCALL_BITS, 0), false), Action::RecordCall);
        reg.push_call(t, name.to_string());
        assert_eq!(classify(&event(STOP_POST_SYSCALL_BITS, 0), false), Action::CloseCall);
        matched.push(matched_call(reg.pop_call(t)));
    }
    assert_eq!(matched, vec!["open(\"a\")", "read(3)", "close(3)"]);
    assert_eq!(matched_call(reg.pop_call(t)), "<unmatched syscall>");
}

#[test]
fn clone_registers_child_with_own_stack() {
    let mut reg: Registry<&str> = Registry::new();
    let root = reg.register(100, "root tracer");
    reg.push_call(root, "fork()".to_string());
    let action = classify(&event(EVENT_CLONE_BITS, 101), true);
    assert_eq!(action, Action::Adopt(101));
    let child = match action {
        Action::Adopt(pid) => reg.register(pid, "child tracer"),
        _ => unreachable!(),
    };
    assert_ne!(child, root);
    assert_eq!(reg.len(), 2);
    assert_eq!(reg.pid(child), 101);
    assert_eq!(*reg.tracer(child), "child tracer");
    *reg.tracer_mut(child) = "replaced";
    assert_eq!(*reg.tracer(child), "replaced");
    assert_eq!(*reg.tracer(root), "root tracer");
    // The child's stops arrive before the parent's wait returns.
    reg.push_call(child, "getpid()".to_string());
    assert_eq!(reg.pop_call(child).as_deref(), Some("getpid()"));
    assert_eq!(reg.pop_call(root).as_deref(), Some("fork()"));
    assert_eq!(reg.pid(root), 100);
}

#[test]
fn clone_without_recursion_is_reported() {
    assert_eq!(classify(&event(EVENT_CLONE_BITS, 7), false), Action::Report);
    assert_eq!(classify(&event(STOP_SIGNAL_BITS, 9), true), Action::Report);
    assert_eq!(event(EVENT_CLONE_BITS, 7).data, EventData::EventClone(7));
}

#[test]
fn adopted_child_gets_a_watch_request() {
    let mut reg: Registry<u8> = Registry::new();
    let (root, _) = reg.adopt(1, 0, 5);
    let (child, request) = reg.adopt(2, 1, 9);
    assert_eq!(root, 0);
    assert_eq!(child, 1);
    assert_eq!(reg.pid(child), 2);
    let expected = syscall::data::Event { id: 9, flags: syscall::EVENT_READ, data: child };
    assert_eq!(&request[..], &*expected);
    assert_eq!(watch_bytes(9, 1), request);
    assert_eq!(WATCH_READ as usize, syscall::EVENT_READ.bits());
}

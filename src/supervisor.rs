//! The supervisor's registry of tracees: one entry per monitor token, each
//! with the stack of calls that have not returned yet.
use vstd::prelude::*;
use crate::event::{Event, EventData};
use crate::flags::{STOP_POST_SYSCALL_BITS, STOP_PRE_SYSCALL_BITS};
use crate::regs::{push_word, word_bytes, words_bytes};

verus! {

/// The readiness flag that asks to be woken when a channel can be read.
pub const WATCH_READ: u64 = 1;

/// The request that registers a channel with the readiness facility under a
/// token: the channel, the flags and the token, as little-endian words.
pub open spec fn watch_request(channel: usize, token: usize) -> Seq<u8> {
    words_bytes(seq![channel as u64, WATCH_READ, token as u64])
}

/// Encodes the request that registers `channel` for reading under `token`.
pub fn watch_bytes(channel: usize, token: usize) -> (r: Vec<u8>)
    ensures
        r@ == watch_request(channel, token),
{
    let mut out: Vec<u8> = Vec::new();
    push_word(&mut out, channel as u64);
    push_word(&mut out, WATCH_READ);
    push_word(&mut out, token as u64);
    proof {
        let w0 = Seq::<u64>::empty();
        let w1 = w0.push(channel as u64);
        let w2 = w1.push(WATCH_READ);
        let w3 = w2.push(token as u64);
        assert(seq![channel as u64, WATCH_READ, token as u64] =~= w3);
        assert(w1.drop_last() =~= w0);
        assert(w2.drop_last() =~= w1);
        assert(w3.drop_last() =~= w2);
        assert(words_bytes(w0) == Seq::<u8>::empty());
        assert(words_bytes(w1) =~= word_bytes(channel as u64));
        assert(words_bytes(w2) == words_bytes(w1) + word_bytes(WATCH_READ));
        assert(words_bytes(w3) == words_bytes(w2) + word_bytes(token as u64));
        assert(out@ =~= words_bytes(w3));
    }
    out
}

/// One tracked tracee.
pub struct Handle<T> {
    pub pid: usize,
    pub tracer: T,
    /// Rendered calls whose return has not been seen, latest last.
    pub unclosed: Vec<String>,
}

/// The view of one entry: process id, tracer, and pending calls.
pub type EntryView<T> = (usize, T, Seq<Seq<char>>);

/// Tracees by monitor token. A token is the index of its entry; entries are
/// only ever added, so a token stays valid while others are registered.
pub struct Registry<T> {
    entries: Vec<Handle<T>>,
}

pub open spec fn entry_view<T>(h: Handle<T>) -> EntryView<T> {
    (h.pid, h.tracer, h.unclosed@.map_values(|s: String| s@))
}

impl<T> View for Registry<T> {
    type V = Seq<EntryView<T>>;

    closed spec fn view(&self) -> Seq<EntryView<T>> {
        self.entries@.map_values(|h: Handle<T>| entry_view(h))
    }
}

impl<T> Registry<T> {
    pub fn new() -> (r: Registry<T>)
        ensures
            r@ == Seq::<EntryView<T>>::empty(),
    {
        let r = Registry { entries: Vec::new() };
        assert(r@ =~= Seq::<EntryView<T>>::empty());
        r
    }

    pub fn len(&self) -> (r: usize)
        ensures
            r == self@.len(),
    {
        self.entries.len()
    }

    /// Adds a tracee under a fresh token, which it returns.
    pub fn register(&mut self, pid: usize, tracer: T) -> (token: usize)
        requires
            old(self)@.len() < usize::MAX,
        ensures
            token == old(self)@.len(),
            final(self)@ == old(self)@.push((pid, tracer, Seq::<Seq<char>>::empty())),
    {
        let token = self.entries.len();
        let h = Handle { pid, tracer, unclosed: Vec::new() };
        assert(entry_view(h).2 =~= Seq::<Seq<char>>::empty());
        self.entries.push(h);
        assert(self@ =~= old(self)@.push((pid, tracer, Seq::<Seq<char>>::empty())));
        token
    }

    /// Adds a tracee whose control channel is `channel`: returns its fresh
    /// token and the request that registers the channel with the readiness
    /// facility under that token.
    pub fn adopt(&mut self, pid: usize, tracer: T, channel: usize) -> (r: (usize, Vec<u8>))
        requires
            old(self)@.len() < usize::MAX,
        ensures
            r.0 == old(self)@.len(),
            final(self)@ == old(self)@.push((pid, tracer, Seq::<Seq<char>>::empty())),
            r.1@ == watch_request(channel, r.0),
    {
        let request = watch_bytes(channel, self.entries.len());
        let token = self.register(pid, tracer);
        (token, request)
    }

    pub fn pid(&self, token: usize) -> (r: usize)
        requires
            token < self@.len(),
        ensures
            r == self@[token as int].0,
    {
        self.entries[token].pid
    }

    pub fn tracer(&self, token: usize) -> (r: &T)
        requires
            token < self@.len(),
        ensures
            *r == self@[token as int].1,
    {
        &self.entries[token].tracer
    }

    pub fn tracer_mut(&mut self, token: usize) -> (r: &mut T)
        requires
            token < old(self)@.len(),
        ensures
            *r == old(self)@[token as int].1,
            final(self)@ == old(self)@.update(
                token as int,
                (old(self)@[token as int].0, *final(r), old(self)@[token as int].2),
            ),
    {
        &mut self.entries[token].tracer
    }

    /// Records a call that a tracee entered.
    pub fn push_call(&mut self, token: usize, call: String)
        requires
            token < old(self)@.len(),
        ensures
            final(self)@ == old(self)@.update(
                token as int,
                (
                    old(self)@[token as int].0,
                    old(self)@[token as int].1,
                    old(self)@[token as int].2.push(call@),
                ),
            ),
    {
        let ghost v = call@;
        self.entries[token].unclosed.push(call);
        assert(self.entries@[token as int].unclosed@.map_values(|s: String| s@) =~= old(self)@[token as int].2.push(v));
        assert(entry_view(self.entries@[token as int]) == (old(self)@[token as int].0, old(self)@[token as int].1, old(self)@[token as int].2.push(v)));
        assert(self@ =~= old(self)@.update(
            token as int,
            (old(self)@[token as int].0, old(self)@[token as int].1, old(self)@[token as int].2.push(v)),
        ));
    }

    /// Takes the latest call that a tracee entered and has not returned from.
    pub fn pop_call(&mut self, token: usize) -> (r: Option<String>)
        requires
            token < old(self)@.len(),
        ensures
            old(self)@[token as int].2.len() == 0 ==> r is None && final(self)@ == old(self)@,
            old(self)@[token as int].2.len() > 0 ==> r is Some && r->0@ == old(self)@[token as int].2.last()
                && final(self)@ == old(self)@.update(
                token as int,
                (
                    old(self)@[token as int].0,
                    old(self)@[token as int].1,
                    old(self)@[token as int].2.drop_last(),
                ),
            ),
    {
        let r = self.entries[token].unclosed.pop();
        proof {
            if old(self)@[token as int].2.len() == 0 {
                assert(self@ =~= old(self)@);
            } else {
                assert(self.entries@[token as int].unclosed@.map_values(|s: String| s@) =~= old(self)@[token as int].2.drop_last());
                assert(entry_view(self.entries@[token as int]) == (old(self)@[token as int].0, old(self)@[token as int].1, old(self)@[token as int].2.drop_last()));
                assert(self@ =~= old(self)@.update(
                    token as int,
                    (
                        old(self)@[token as int].0,
                        old(self)@[token as int].1,
                        old(self)@[token as int].2.drop_last(),
                    ),
                ));
            }
        }
        r
    }
}

/// What the supervisor does with an event of a tracee.
#[derive(Clone, Copy, Debug, PartialEq, Eq, Structural)]
pub enum Action {
    /// Render the call being entered and push it.
    RecordCall,
    /// Pop the matching call and render the return value.
    CloseCall,
    /// Report the event, then attach to this new child and register it.
    Adopt(usize),
    /// Report the event.
    Report,
}

pub open spec fn action_of(event: Event, recursive: bool) -> Action {
    if event.cause.bits == STOP_PRE_SYSCALL_BITS {
        Action::RecordCall
    } else if event.cause.bits == STOP_POST_SYSCALL_BITS {
        Action::CloseCall
    } else {
        match event.data {
            EventData::EventClone(pid) => if recursive {
                Action::Adopt(pid)
            } else {
                Action::Report
            },
            _ => Action::Report,
        }
    }
}

/// Chooses the supervisor's action for an event; with `recursive`, a clone
/// event adopts the child.
pub fn classify(event: &Event, recursive: bool) -> (r: Action)
    ensures
        r == action_of(*event, recursive),
{
    if event.cause.bits == STOP_PRE_SYSCALL_BITS {
        Action::RecordCall
    } else if event.cause.bits == STOP_POST_SYSCALL_BITS {
        Action::CloseCall
    } else {
        match event.data {
            EventData::EventClone(pid) => if recursive {
                Action::Adopt(pid)
            } else {
                Action::Report
            },
            _ => Action::Report,
        }
    }
}

/// The text shown for a return whose call was never seen.
pub open spec fn unmatched_text() -> Seq<char> {
    "<unmatched syscall>"@
}

/// The call that a return closes: the popped call, or a marker when none
/// was pending.
pub fn matched_call(popped: Option<String>) -> (r: String)
    ensures
        r@ == match popped {
            Some(s) => s@,
            None => unmatched_text(),
        },
{
    match popped {
        Some(s) => s,
        None => String::from_str("<unmatched syscall>"),
    }
}

/// One stop of a single tracee: entering a call with its rendering, or
/// returning from one.
pub enum Stop {
    Enter(Seq<char>),
    Exit,
}

/// Replays stops on a stack of pending calls: the final stack, and for each
/// exit the call it matched (`None` when none was pending).
pub open spec fn replay(stack: Seq<Seq<char>>, stops: Seq<Stop>) -> (Seq<Seq<char>>, Seq<Option<Seq<char>>>)
    decreases stops.len(),
{
    if stops.len() == 0 {
        (stack, Seq::empty())
    } else {
        let (st, out) = replay(stack, stops.drop_last());
        match stops.last() {
            Stop::Enter(c) => (st.push(c), out),
            Stop::Exit => if st.len() == 0 {
                (st, out.push(None))
            } else {
                (st.drop_last(), out.push(Some(st.last())))
            },
        }
    }
}

/// Entering call `calls[k]` and then returning, for each `k` in turn.
pub open spec fn alternating(calls: Seq<Seq<char>>) -> Seq<Stop>
    decreases calls.len(),
{
    if calls.len() == 0 {
        Seq::empty()
    } else {
        alternating(calls.drop_last()).push(Stop::Enter(calls.last())).push(Stop::Exit)
    }
}

/// On one tracee whose entries and exits alternate, the Nth exit matches the
/// Nth entry, and the calls pending before are left as they were.
pub proof fn lemma_paired_calls(stack: Seq<Seq<char>>, calls: Seq<Seq<char>>)
    ensures
        replay(stack, alternating(calls)).0 == stack,
        replay(stack, alternating(calls)).1 == calls.map_values(|c: Seq<char>| Some(c)),
    decreases calls.len(),
{
    if calls.len() > 0 {
        let front = calls.drop_last();
        lemma_paired_calls(stack, front);
        let s1 = alternating(front).push(Stop::Enter(calls.last()));
        let s2 = s1.push(Stop::Exit);
        assert(s2.drop_last() =~= s1);
        assert(s1.drop_last() =~= alternating(front));
        assert(replay(stack, s1).0 == stack.push(calls.last()));
        assert(stack.push(calls.last()).drop_last() =~= stack);
        assert(calls.map_values(|c: Seq<char>| Some(c)) =~= front.map_values(
            |c: Seq<char>| Some(c),
        ).push(Some(calls.last())));
    }
}

/// Registering a tracee gives it a token that no other entry has, with no
/// pending calls, and leaves every earlier entry as it was.
pub proof fn lemma_register_fresh<T>(
    before: Seq<EntryView<T>>,
    after: Seq<EntryView<T>>,
    token: usize,
    pid: usize,
    tracer: T,
)
    requires
        token == before.len(),
        after == before.push((pid, tracer, Seq::<Seq<char>>::empty())),
    ensures
        token < after.len(),
        after[token as int].0 == pid,
        after[token as int].2.len() == 0,
        forall|t: int| 0 <= t < before.len() ==> t != token && after[t] == before[t],
{
}

} // verus!

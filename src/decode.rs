//! The syscall decoder: renders a syscall number and its argument words as
//! `name(arg, arg, ...)`.
//!
//! Arguments that point into the tracee are resolved in two rounds of memory
//! reads that the caller performs: [`first_reads`] lists at most one read per
//! argument, [`second_reads`] lists the element reads of exec-style string
//! vectors once the first round is in. A read that failed, or that came back
//! with another length than asked, renders that argument as `error` (an
//! element of a string vector that cannot be read or is not UTF-8 as
//! `unresolvable`, a readable one in `str`'s debug form); every other
//! argument renders as usual.
use vstd::prelude::*;
use vstd::slice::slice_subrange;
use vstd::utf8::{decode_utf8, valid_utf8};
use crate::numbers;
use crate::platform::{
    clone_flags_debug, clone_flags_text, debug_text, map_debug, map_flags_debug, map_flags_text, map_text,
    physmap_flags_debug, physmap_flags_text, stat_debug, stat_text, timespec_debug,
    timespec_text, str_debug, utf8_string, wait_flags_debug, wait_flags_text,
};
use crate::text::{
    dec_text, hex_text, oct_text, push_char, push_dec, push_hex, push_oct, push_quoted,
    push_signed, push_str, quoted, signed_text,
};

verus! {

/// A syscall as the registers hold it: the number `a` and five argument words.
#[derive(Clone, Copy, Debug, PartialEq, Eq, Structural)]
pub struct RawCall {
    pub a: usize,
    pub b: usize,
    pub c: usize,
    pub d: usize,
    pub e: usize,
    pub f: usize,
}

/// One read of tracee memory: `length` bytes from `address`.
#[derive(Clone, Copy, Debug, PartialEq, Eq, Structural)]
pub struct MemRead {
    pub address: usize,
    pub length: usize,
}

/// The platform records that the decoder can render.
#[derive(Clone, Copy, Debug, PartialEq, Eq, Structural)]
pub enum RecordKind {
    MemMap,
    FileStat,
    TimeSpec,
}

/// The platform flag sets that the decoder can render.
#[derive(Clone, Copy, Debug, PartialEq, Eq, Structural)]
pub enum FlagKind {
    CloneSet,
    MapSet,
    PhysmapSet,
    WaitSet,
}

/// How many elements an array argument holds.
#[derive(Clone, Copy, Debug, PartialEq, Eq, Structural)]
pub enum Count {
    One,
    Two,
    /// The word in this slot.
    Slot(u8),
    /// The byte length in this slot, divided by the element size.
    Bytes(u8),
}

/// How one argument renders. Slots 1 to 5 name the words `b` to `f`.
#[derive(Clone, Copy, Debug, PartialEq, Eq, Structural)]
pub enum Arg {
    Dec(u8),
    Hex(u8),
    Oct(u8),
    /// The word as a signed value.
    Signed(u8),
    /// A byte string at the first slot, of the length in the second.
    Bytes(u8, u8),
    /// An array of platform records.
    Records(RecordKind, u8, Count),
    /// An array of pairs of words, as `[[x, y], ...]`.
    Pairs(u8, Count),
    /// An array of words, as `[x, ...]`.
    Words(u8, Count),
    /// A futex address in hexadecimal, then the 32-bit value it holds.
    Futex(u8),
    /// A seek origin by name, then its number.
    Whence(u8),
    /// A file-control command by name, then its number.
    FcntlCmd(u8),
    /// A platform flag set.
    FlagSet(FlagKind, u8),
    /// Two words in parentheses.
    Tuple(u8, u8),
    /// An array of (pointer, length) pairs, each a string to resolve.
    Vector(u8, u8),
}

/// A known syscall: its name and its first `arity` argument rules.
#[derive(Clone, Copy, Debug)]
pub struct Rule {
    pub name: &'static str,
    pub arity: usize,
    pub args: [Arg; 5],
}

pub open spec fn word(call: RawCall, slot: u8) -> usize {
    if slot == 1 {
        call.b
    } else if slot == 2 {
        call.c
    } else if slot == 3 {
        call.d
    } else if slot == 4 {
        call.e
    } else {
        call.f
    }
}

fn slot_word(call: &RawCall, slot: u8) -> (r: usize)
    ensures
        r == word(*call, slot),
{
    if slot == 1 {
        call.b
    } else if slot == 2 {
        call.c
    } else if slot == 3 {
        call.d
    } else if slot == 4 {
        call.e
    } else {
        call.f
    }
}

pub open spec fn record_size(kind: RecordKind) -> nat {
    match kind {
        RecordKind::MemMap => numbers::MAP_SIZE as nat,
        RecordKind::FileStat => numbers::STAT_SIZE as nat,
        RecordKind::TimeSpec => numbers::TIMESPEC_SIZE as nat,
    }
}

fn record_len(kind: RecordKind) -> (r: usize)
    ensures
        r == record_size(kind),
{
    match kind {
        RecordKind::MemMap => numbers::MAP_SIZE,
        RecordKind::FileStat => numbers::STAT_SIZE,
        RecordKind::TimeSpec => numbers::TIMESPEC_SIZE,
    }
}

pub open spec fn count_of(count: Count, call: RawCall, size: nat) -> nat {
    match count {
        Count::One => 1,
        Count::Two => 2,
        Count::Slot(s) => word(call, s) as nat,
        Count::Bytes(s) => word(call, s) as nat / size,
    }
}

pub open spec fn sized_read(address: usize, n: nat, size: nat) -> Option<MemRead> {
    if n * size <= usize::MAX {
        Some(MemRead { address, length: (n * size) as usize })
    } else {
        None
    }
}

/// The first-round read that an argument needs, if any. An array whose byte
/// length does not fit a `usize` is never read.
pub open spec fn arg_read(arg: Arg, call: RawCall) -> Option<MemRead> {
    match arg {
        Arg::Bytes(p, l) => Some(MemRead { address: word(call, p), length: word(call, l) }),
        Arg::Records(kind, p, n) => sized_read(
            word(call, p),
            count_of(n, call, record_size(kind)),
            record_size(kind),
        ),
        Arg::Pairs(p, n) => sized_read(word(call, p), count_of(n, call, 16), 16),
        Arg::Words(p, n) => sized_read(word(call, p), count_of(n, call, 8), 8),
        Arg::Futex(p) => Some(MemRead { address: word(call, p), length: 4 }),
        Arg::Vector(p, n) => sized_read(word(call, p), word(call, n) as nat, 16),
        _ => None,
    }
}

/// The answer to a read, kept only when it has the length asked for.
pub open spec fn accepted(read: Option<MemRead>, answer: Option<Seq<u8>>) -> Option<Seq<u8>> {
    match (read, answer) {
        (Some(rd), Some(b)) => if b.len() == rd.length {
            Some(b)
        } else {
            None
        },
        _ => None,
    }
}

pub open spec fn answer_at(answers: Seq<Option<Seq<u8>>>, i: int) -> Option<Seq<u8>> {
    if 0 <= i < answers.len() {
        answers[i]
    } else {
        None
    }
}

pub open spec fn answers_at(answers: Seq<Seq<Option<Seq<u8>>>>, i: int) -> Seq<Option<Seq<u8>>> {
    if 0 <= i < answers.len() {
        answers[i]
    } else {
        Seq::empty()
    }
}

/// Little-endian 64-bit word at `off`.
pub open spec fn le_u64(b: Seq<u8>, off: int) -> u64 {
    (b[off] as u64) | ((b[off + 1] as u64) << 8u64) | ((b[off + 2] as u64) << 16u64) | ((
    b[off + 3] as u64) << 24u64) | ((b[off + 4] as u64) << 32u64) | ((b[off + 5] as u64)
        << 40u64) | ((b[off + 6] as u64) << 48u64) | ((b[off + 7] as u64) << 56u64)
}

/// Little-endian 32-bit signed value at the start of `b`.
pub open spec fn le_i32(b: Seq<u8>) -> i32 {
    ((b[0] as u32) | ((b[1] as u32) << 8u32) | ((b[2] as u32) << 16u32) | ((b[3] as u32)
        << 24u32)) as i32
}

/// Items separated by `, `.
pub open spec fn join(items: Seq<Seq<char>>) -> Seq<char>
    decreases items.len(),
{
    if items.len() == 0 {
        Seq::empty()
    } else if items.len() == 1 {
        items[0]
    } else {
        join(items.drop_last()) + seq![',', ' '] + items.last()
    }
}

pub open spec fn bracketed(items: Seq<Seq<char>>) -> Seq<char> {
    seq!['['] + join(items) + seq![']']
}

pub open spec fn error_text() -> Seq<char> {
    seq!['e', 'r', 'r', 'o', 'r']
}

pub open spec fn unresolvable_text() -> Seq<char> {
    seq!['u', 'n', 'r', 'e', 's', 'o', 'l', 'v', 'a', 'b', 'l', 'e']
}

pub open spec fn record_debug(kind: RecordKind, b: Seq<u8>) -> Seq<char> {
    match kind {
        RecordKind::MemMap => map_debug(b),
        RecordKind::FileStat => stat_debug(b),
        RecordKind::TimeSpec => timespec_debug(b),
    }
}

pub open spec fn flags_debug(kind: FlagKind, bits: usize) -> Seq<char> {
    match kind {
        FlagKind::CloneSet => clone_flags_debug(bits),
        FlagKind::MapSet => map_flags_debug(bits),
        FlagKind::PhysmapSet => physmap_flags_debug(bits),
        FlagKind::WaitSet => wait_flags_debug(bits),
    }
}

pub open spec fn whence_name(w: usize) -> Seq<char> {
    if w == numbers::SEEK_SET {
        "SEEK_SET"@
    } else if w == numbers::SEEK_CUR {
        "SEEK_CUR"@
    } else if w == numbers::SEEK_END {
        "SEEK_END"@
    } else {
        "UNKNOWN"@
    }
}

pub open spec fn fcntl_name(c: usize) -> Seq<char> {
    if c == numbers::F_DUPFD {
        "F_DUPFD"@
    } else if c == numbers::F_GETFD {
        "F_GETFD"@
    } else if c == numbers::F_SETFD {
        "F_SETFD"@
    } else if c == numbers::F_SETFL {
        "F_SETFL"@
    } else if c == numbers::F_GETFL {
        "F_GETFL"@
    } else {
        "UNKNOWN"@
    }
}

/// `name (number)`.
pub open spec fn named_number(name: Seq<char>, n: usize) -> Seq<char> {
    name + seq![' ', '('] + dec_text(n as nat) + seq![')']
}

pub open spec fn records_items(kind: RecordKind, b: Seq<u8>) -> Seq<Seq<char>> {
    let size = record_size(kind) as int;
    Seq::new(
        (b.len() / record_size(kind)) as nat,
        |k: int| record_debug(kind, b.subrange(k * size, k * size + size)),
    )
}

pub open spec fn pair_text(b: Seq<u8>, k: int) -> Seq<char> {
    seq!['['] + dec_text(le_u64(b, 16 * k) as nat) + seq![',', ' '] + dec_text(
        le_u64(b, 16 * k + 8) as nat,
    ) + seq![']']
}

pub open spec fn pairs_items(b: Seq<u8>) -> Seq<Seq<char>> {
    Seq::new(b.len() / 16, |k: int| pair_text(b, k))
}

pub open spec fn words_items(b: Seq<u8>) -> Seq<Seq<char>> {
    Seq::new(b.len() / 8, |k: int| dec_text(le_u64(b, 8 * k) as nat))
}

/// The element reads of a string vector whose (pointer, length) pairs are `b`.
pub open spec fn vector_reads(b: Seq<u8>) -> Seq<MemRead> {
    Seq::new(
        b.len() / 16,
        |k: int| MemRead { address: le_u64(b, 16 * k) as usize, length: le_u64(b, 16 * k + 8) as usize },
    )
}

/// A string element: its debug form when it was read and is valid UTF-8,
/// `unresolvable` otherwise.
pub open spec fn element_text(read: MemRead, answer: Option<Seq<u8>>) -> Seq<char> {
    match accepted(Some(read), answer) {
        Some(s) => if valid_utf8(s) {
            str_debug(decode_utf8(s))
        } else {
            unresolvable_text()
        },
        None => unresolvable_text(),
    }
}

pub open spec fn vector_items(b: Seq<u8>, answers: Seq<Option<Seq<u8>>>) -> Seq<Seq<char>> {
    Seq::new(b.len() / 16, |k: int| element_text(vector_reads(b)[k], answer_at(answers, k)))
}

/// The text of one argument, given the accepted first-round answer for it and
/// the second-round answers for its elements.
pub open spec fn arg_text(
    arg: Arg,
    call: RawCall,
    got: Option<Seq<u8>>,
    elems: Seq<Option<Seq<u8>>>,
) -> Seq<char> {
    match arg {
        Arg::Dec(s) => dec_text(word(call, s) as nat),
        Arg::Hex(s) => hex_text(word(call, s) as nat),
        Arg::Oct(s) => oct_text(word(call, s) as nat),
        Arg::Signed(s) => signed_text((word(call, s) as i64) as int),
        Arg::Whence(s) => named_number(whence_name(word(call, s)), word(call, s)),
        Arg::FcntlCmd(s) => named_number(fcntl_name(word(call, s)), word(call, s)),
        Arg::FlagSet(kind, s) => flags_debug(kind, word(call, s)),
        Arg::Tuple(x, y) => seq!['('] + dec_text(word(call, x) as nat) + seq![',', ' '] + dec_text(
            word(call, y) as nat,
        ) + seq![')'],
        Arg::Futex(p) => hex_text(word(call, p) as nat) + seq![' ', '['] + match got {
            Some(b) => signed_text(le_i32(b) as int),
            None => error_text(),
        } + seq![']'],
        _ => match got {
            None => error_text(),
            Some(b) => match arg {
                Arg::Bytes(_, _) => quoted(b),
                Arg::Records(kind, _, _) => bracketed(records_items(kind, b)),
                Arg::Pairs(_, _) => bracketed(pairs_items(b)),
                Arg::Words(_, _) => bracketed(words_items(b)),
                _ => bracketed(vector_items(b, elems)),
            },
        },
    }
}

pub open spec fn r0(name: &'static str) -> Rule {
    Rule { name, arity: 0, args: [Arg::Dec(1), Arg::Dec(1), Arg::Dec(1), Arg::Dec(1), Arg::Dec(1)] }
}

pub open spec fn r1(name: &'static str, x: Arg) -> Rule {
    Rule { name, arity: 1, args: [x, Arg::Dec(1), Arg::Dec(1), Arg::Dec(1), Arg::Dec(1)] }
}

pub open spec fn r2(name: &'static str, x: Arg, y: Arg) -> Rule {
    Rule { name, arity: 2, args: [x, y, Arg::Dec(1), Arg::Dec(1), Arg::Dec(1)] }
}

pub open spec fn r3(name: &'static str, x: Arg, y: Arg, z: Arg) -> Rule {
    Rule { name, arity: 3, args: [x, y, z, Arg::Dec(1), Arg::Dec(1)] }
}

pub open spec fn r4(name: &'static str, x: Arg, y: Arg, z: Arg, w: Arg) -> Rule {
    Rule { name, arity: 4, args: [x, y, z, w, Arg::Dec(1)] }
}

pub open spec fn r5(name: &'static str, x: Arg, y: Arg, z: Arg, w: Arg, v: Arg) -> Rule {
    Rule { name, arity: 5, args: [x, y, z, w, v] }
}

/// The rule of a known syscall number.
pub open spec fn rule_spec(n: usize) -> Option<Rule> {
    if n == numbers::SYS_OPEN {
        Some(r2("open", Arg::Bytes(1, 2), Arg::Hex(3)))
    } else if n == numbers::SYS_CHMOD {
        Some(r2("chmod", Arg::Bytes(1, 2), Arg::Oct(3)))
    } else if n == numbers::SYS_RMDIR {
        Some(r1("rmdir", Arg::Bytes(1, 2)))
    } else if n == numbers::SYS_UNLINK {
        Some(r1("unlink", Arg::Bytes(1, 2)))
    } else if n == numbers::SYS_CLOSE {
        Some(r1("close", Arg::Dec(1)))
    } else if n == numbers::SYS_DUP {
        Some(r2("dup", Arg::Dec(1), Arg::Bytes(2, 3)))
    } else if n == numbers::SYS_DUP2 {
        Some(r3("dup2", Arg::Dec(1), Arg::Dec(2), Arg::Bytes(3, 4)))
    } else if n == numbers::SYS_READ {
        Some(r3("read", Arg::Dec(1), Arg::Hex(2), Arg::Dec(3)))
    } else if n == numbers::SYS_WRITE {
        Some(r3("write", Arg::Dec(1), Arg::Hex(2), Arg::Dec(3)))
    } else if n == numbers::SYS_LSEEK {
        Some(r3("lseek", Arg::Dec(1), Arg::Signed(2), Arg::Whence(3)))
    } else if n == numbers::SYS_FCHMOD {
        Some(r2("fchmod", Arg::Dec(1), Arg::Oct(2)))
    } else if n == numbers::SYS_FCHOWN {
        Some(r3("fchown", Arg::Dec(1), Arg::Dec(2), Arg::Dec(3)))
    } else if n == numbers::SYS_FCNTL {
        Some(r3("fcntl", Arg::Dec(1), Arg::FcntlCmd(2), Arg::Hex(3)))
    } else if n == numbers::SYS_FMAP {
        Some(r2("fmap", Arg::Dec(1), Arg::Records(RecordKind::MemMap, 2, Count::Bytes(3))))
    } else if n == numbers::SYS_FUNMAP {
        Some(r1("funmap", Arg::Hex(1)))
    } else if n == numbers::SYS_FPATH {
        Some(r3("fpath", Arg::Dec(1), Arg::Hex(2), Arg::Dec(3)))
    } else if n == numbers::SYS_FRENAME {
        Some(r2("frename", Arg::Dec(1), Arg::Bytes(2, 3)))
    } else if n == numbers::SYS_FSTAT {
        Some(r2("fstat", Arg::Dec(1), Arg::Records(RecordKind::FileStat, 2, Count::Bytes(3))))
    } else if n == numbers::SYS_FSTATVFS {
        Some(r3("fstatvfs", Arg::Dec(1), Arg::Hex(2), Arg::Dec(3)))
    } else if n == numbers::SYS_FSYNC {
        Some(r1("fsync", Arg::Dec(1)))
    } else if n == numbers::SYS_FTRUNCATE {
        Some(r2("ftruncate", Arg::Dec(1), Arg::Dec(2)))
    } else if n == numbers::SYS_FUTIMENS {
        Some(r2("futimens", Arg::Dec(1), Arg::Records(RecordKind::TimeSpec, 2, Count::Bytes(3))))
    } else if n == numbers::SYS_CHDIR {
        Some(r1("chdir", Arg::Bytes(1, 2)))
    } else if n == numbers::SYS_CLOCK_GETTIME {
        Some(r2("clock_gettime", Arg::Dec(1), Arg::Records(RecordKind::TimeSpec, 2, Count::One)))
    } else if n == numbers::SYS_CLONE {
        Some(r1("clone", Arg::FlagSet(FlagKind::CloneSet, 1)))
    } else if n == numbers::SYS_EXIT {
        Some(r1("exit", Arg::Dec(1)))
    } else if n == numbers::SYS_FEXEC {
        Some(r3("fexec", Arg::Dec(1), Arg::Vector(2, 3), Arg::Vector(4, 5)))
    } else if n == numbers::SYS_FUTEX {
        Some(r5("futex", Arg::Futex(1), Arg::Dec(2), Arg::Dec(3), Arg::Dec(4), Arg::Dec(5)))
    } else if n == numbers::SYS_GETCWD {
        Some(r2("getcwd", Arg::Hex(1), Arg::Dec(2)))
    } else if n == numbers::SYS_GETEGID {
        Some(r0("getegid"))
    } else if n == numbers::SYS_GETENS {
        Some(r0("getens"))
    } else if n == numbers::SYS_GETEUID {
        Some(r0("geteuid"))
    } else if n == numbers::SYS_GETGID {
        Some(r0("getgid"))
    } else if n == numbers::SYS_GETNS {
        Some(r0("getns"))
    } else if n == numbers::SYS_GETPGID {
        Some(r0("getpgid"))
    } else if n == numbers::SYS_GETPID {
        Some(r0("getpid"))
    } else if n == numbers::SYS_GETPPID {
        Some(r0("getppid"))
    } else if n == numbers::SYS_GETUID {
        Some(r0("getuid"))
    } else if n == numbers::SYS_IOPL {
        Some(r1("iopl", Arg::Dec(1)))
    } else if n == numbers::SYS_KILL {
        Some(r2("kill", Arg::Dec(1), Arg::Dec(2)))
    } else if n == numbers::SYS_SIGRETURN {
        Some(r0("sigreturn"))
    } else if n == numbers::SYS_SIGACTION {
        Some(r4("sigaction", Arg::Dec(1), Arg::Hex(2), Arg::Hex(3), Arg::Hex(4)))
    } else if n == numbers::SYS_SIGPROCMASK {
        Some(r3("sigprocmask", Arg::Dec(1), Arg::Pairs(2, Count::One), Arg::Pairs(3, Count::One)))
    } else if n == numbers::SYS_MKNS {
        Some(r1("mkns", Arg::Pairs(1, Count::Slot(2))))
    } else if n == numbers::SYS_MPROTECT {
        Some(r3("mprotect", Arg::Hex(1), Arg::Dec(2), Arg::FlagSet(FlagKind::MapSet, 3)))
    } else if n == numbers::SYS_NANOSLEEP {
        Some(r2("nanosleep", Arg::Records(RecordKind::TimeSpec, 1, Count::One), Arg::Tuple(2, 3)))
    } else if n == numbers::SYS_PHYSALLOC {
        Some(r1("physalloc", Arg::Dec(1)))
    } else if n == numbers::SYS_PHYSFREE {
        Some(r2("physfree", Arg::Hex(1), Arg::Dec(2)))
    } else if n == numbers::SYS_PHYSMAP {
        Some(r3("physmap", Arg::Hex(1), Arg::Dec(2), Arg::FlagSet(FlagKind::PhysmapSet, 3)))
    } else if n == numbers::SYS_PHYSUNMAP {
        Some(r1("physunmap", Arg::Hex(1)))
    } else if n == numbers::SYS_VIRTTOPHYS {
        Some(r1("virttophys", Arg::Hex(1)))
    } else if n == numbers::SYS_PIPE2 {
        Some(r2("pipe2", Arg::Words(1, Count::Two), Arg::Dec(2)))
    } else if n == numbers::SYS_SETREGID {
        Some(r2("setregid", Arg::Dec(1), Arg::Dec(2)))
    } else if n == numbers::SYS_SETRENS {
        Some(r2("setrens", Arg::Dec(1), Arg::Dec(2)))
    } else if n == numbers::SYS_SETREUID {
        Some(r2("setreuid", Arg::Dec(1), Arg::Dec(2)))
    } else if n == numbers::SYS_UMASK {
        Some(r1("umask", Arg::Oct(1)))
    } else if n == numbers::SYS_WAITPID {
        Some(r3("waitpid", Arg::Dec(1), Arg::Hex(2), Arg::FlagSet(FlagKind::WaitSet, 3)))
    } else if n == numbers::SYS_YIELD {
        Some(r0("yield"))
    } else {
        None
    }
}

fn mk0(name: &'static str) -> (r: Rule)
    ensures
        r == r0(name),
{
    Rule { name, arity: 0, args: [Arg::Dec(1), Arg::Dec(1), Arg::Dec(1), Arg::Dec(1), Arg::Dec(1)] }
}

fn mk1(name: &'static str, x: Arg) -> (r: Rule)
    ensures
        r == r1(name, x),
{
    Rule { name, arity: 1, args: [x, Arg::Dec(1), Arg::Dec(1), Arg::Dec(1), Arg::Dec(1)] }
}

fn mk2(name: &'static str, x: Arg, y: Arg) -> (r: Rule)
    ensures
        r == r2(name, x, y),
{
    Rule { name, arity: 2, args: [x, y, Arg::Dec(1), Arg::Dec(1), Arg::Dec(1)] }
}

fn mk3(name: &'static str, x: Arg, y: Arg, z: Arg) -> (r: Rule)
    ensures
        r == r3(name, x, y, z),
{
    Rule { name, arity: 3, args: [x, y, z, Arg::Dec(1), Arg::Dec(1)] }
}

fn mk4(name: &'static str, x: Arg, y: Arg, z: Arg, w: Arg) -> (r: Rule)
    ensures
        r == r4(name, x, y, z, w),
{
    Rule { name, arity: 4, args: [x, y, z, w, Arg::Dec(1)] }
}

fn mk5(name: &'static str, x: Arg, y: Arg, z: Arg, w: Arg, v: Arg) -> (r: Rule)
    ensures
        r == r5(name, x, y, z, w, v),
{
    Rule { name, arity: 5, args: [x, y, z, w, v] }
}

/// The rule of a known syscall number, or `None` for any other number.
pub fn rule_of(n: usize) -> (r: Option<Rule>)
    ensures
        r == rule_spec(n),
{
    if n == numbers::SYS_OPEN {
        Some(mk2("open", Arg::Bytes(1, 2), Arg::Hex(3)))
    } else if n == numbers::SYS_CHMOD {
        Some(mk2("chmod", Arg::Bytes(1, 2), Arg::Oct(3)))
    } else if n == numbers::SYS_RMDIR {
        Some(mk1("rmdir", Arg::Bytes(1, 2)))
    } else if n == numbers::SYS_UNLINK {
        Some(mk1("unlink", Arg::Bytes(1, 2)))
    } else if n == numbers::SYS_CLOSE {
        Some(mk1("close", Arg::Dec(1)))
    } else if n == numbers::SYS_DUP {
        Some(mk2("dup", Arg::Dec(1), Arg::Bytes(2, 3)))
    } else if n == numbers::SYS_DUP2 {
        Some(mk3("dup2", Arg::Dec(1), Arg::Dec(2), Arg::Bytes(3, 4)))
    } else if n == numbers::SYS_READ {
        Some(mk3("read", Arg::Dec(1), Arg::Hex(2), Arg::Dec(3)))
    } else if n == numbers::SYS_WRITE {
        Some(mk3("write", Arg::Dec(1), Arg::Hex(2), Arg::Dec(3)))
    } else if n == numbers::SYS_LSEEK {
        Some(mk3("lseek", Arg::Dec(1), Arg::Signed(2), Arg::Whence(3)))
    } else if n == numbers::SYS_FCHMOD {
        Some(mk2("fchmod", Arg::Dec(1), Arg::Oct(2)))
    } else if n == numbers::SYS_FCHOWN {
        Some(mk3("fchown", Arg::Dec(1), Arg::Dec(2), Arg::Dec(3)))
    } else if n == numbers::SYS_FCNTL {
        Some(mk3("fcntl", Arg::Dec(1), Arg::FcntlCmd(2), Arg::Hex(3)))
    } else if n == numbers::SYS_FMAP {
        Some(mk2("fmap", Arg::Dec(1), Arg::Records(RecordKind::MemMap, 2, Count::Bytes(3))))
    } else if n == numbers::SYS_FUNMAP {
        Some(mk1("funmap", Arg::Hex(1)))
    } else if n == numbers::SYS_FPATH {
        Some(mk3("fpath", Arg::Dec(1), Arg::Hex(2), Arg::Dec(3)))
    } else if n == numbers::SYS_FRENAME {
        Some(mk2("frename", Arg::Dec(1), Arg::Bytes(2, 3)))
    } else if n == numbers::SYS_FSTAT {
        Some(mk2("fstat", Arg::Dec(1), Arg::Records(RecordKind::FileStat, 2, Count::Bytes(3))))
    } else if n == numbers::SYS_FSTATVFS {
        Some(mk3("fstatvfs", Arg::Dec(1), Arg::Hex(2), Arg::Dec(3)))
    } else if n == numbers::SYS_FSYNC {
        Some(mk1("fsync", Arg::Dec(1)))
    } else if n == numbers::SYS_FTRUNCATE {
        Some(mk2("ftruncate", Arg::Dec(1), Arg::Dec(2)))
    } else if n == numbers::SYS_FUTIMENS {
        Some(mk2("futimens", Arg::Dec(1), Arg::Records(RecordKind::TimeSpec, 2, Count::Bytes(3))))
    } else if n == numbers::SYS_CHDIR {
        Some(mk1("chdir", Arg::Bytes(1, 2)))
    } else if n == numbers::SYS_CLOCK_GETTIME {
        Some(mk2("clock_gettime", Arg::Dec(1), Arg::Records(RecordKind::TimeSpec, 2, Count::One)))
    } else if n == numbers::SYS_CLONE {
        Some(mk1("clone", Arg::FlagSet(FlagKind::CloneSet, 1)))
    } else if n == numbers::SYS_EXIT {
        Some(mk1("exit", Arg::Dec(1)))
    } else if n == numbers::SYS_FEXEC {
        Some(mk3("fexec", Arg::Dec(1), Arg::Vector(2, 3), Arg::Vector(4, 5)))
    } else if n == numbers::SYS_FUTEX {
        Some(mk5("futex", Arg::Futex(1), Arg::Dec(2), Arg::Dec(3), Arg::Dec(4), Arg::Dec(5)))
    } else if n == numbers::SYS_GETCWD {
        Some(mk2("getcwd", Arg::Hex(1), Arg::Dec(2)))
    } else if n == numbers::SYS_GETEGID {
        Some(mk0("getegid"))
    } else if n == numbers::SYS_GETENS {
        Some(mk0("getens"))
    } else if n == numbers::SYS_GETEUID {
        Some(mk0("geteuid"))
    } else if n == numbers::SYS_GETGID {
        Some(mk0("getgid"))
    } else if n == numbers::SYS_GETNS {
        Some(mk0("getns"))
    } else if n == numbers::SYS_GETPGID {
        Some(mk0("getpgid"))
    } else if n == numbers::SYS_GETPID {
        Some(mk0("getpid"))
    } else if n == numbers::SYS_GETPPID {
        Some(mk0("getppid"))
    } else if n == numbers::SYS_GETUID {
        Some(mk0("getuid"))
    } else if n == numbers::SYS_IOPL {
        Some(mk1("iopl", Arg::Dec(1)))
    } else if n == numbers::SYS_KILL {
        Some(mk2("kill", Arg::Dec(1), Arg::Dec(2)))
    } else if n == numbers::SYS_SIGRETURN {
        Some(mk0("sigreturn"))
    } else if n == numbers::SYS_SIGACTION {
        Some(mk4("sigaction", Arg::Dec(1), Arg::Hex(2), Arg::Hex(3), Arg::Hex(4)))
    } else if n == numbers::SYS_SIGPROCMASK {
        Some(mk3("sigprocmask", Arg::Dec(1), Arg::Pairs(2, Count::One), Arg::Pairs(3, Count::One)))
    } else if n == numbers::SYS_MKNS {
        Some(mk1("mkns", Arg::Pairs(1, Count::Slot(2))))
    } else if n == numbers::SYS_MPROTECT {
        Some(mk3("mprotect", Arg::Hex(1), Arg::Dec(2), Arg::FlagSet(FlagKind::MapSet, 3)))
    } else if n == numbers::SYS_NANOSLEEP {
        Some(mk2("nanosleep", Arg::Records(RecordKind::TimeSpec, 1, Count::One), Arg::Tuple(2, 3)))
    } else if n == numbers::SYS_PHYSALLOC {
        Some(mk1("physalloc", Arg::Dec(1)))
    } else if n == numbers::SYS_PHYSFREE {
        Some(mk2("physfree", Arg::Hex(1), Arg::Dec(2)))
    } else if n == numbers::SYS_PHYSMAP {
        Some(mk3("physmap", Arg::Hex(1), Arg::Dec(2), Arg::FlagSet(FlagKind::PhysmapSet, 3)))
    } else if n == numbers::SYS_PHYSUNMAP {
        Some(mk1("physunmap", Arg::Hex(1)))
    } else if n == numbers::SYS_VIRTTOPHYS {
        Some(mk1("virttophys", Arg::Hex(1)))
    } else if n == numbers::SYS_PIPE2 {
        Some(mk2("pipe2", Arg::Words(1, Count::Two), Arg::Dec(2)))
    } else if n == numbers::SYS_SETREGID {
        Some(mk2("setregid", Arg::Dec(1), Arg::Dec(2)))
    } else if n == numbers::SYS_SETRENS {
        Some(mk2("setrens", Arg::Dec(1), Arg::Dec(2)))
    } else if n == numbers::SYS_SETREUID {
        Some(mk2("setreuid", Arg::Dec(1), Arg::Dec(2)))
    } else if n == numbers::SYS_UMASK {
        Some(mk1("umask", Arg::Oct(1)))
    } else if n == numbers::SYS_WAITPID {
        Some(mk3("waitpid", Arg::Dec(1), Arg::Hex(2), Arg::FlagSet(FlagKind::WaitSet, 3)))
    } else if n == numbers::SYS_YIELD {
        Some(mk0("yield"))
    } else {
        None
    }
}


/// The view of a vector of answers.
pub open spec fn answers_view(v: Seq<Option<Vec<u8>>>) -> Seq<Option<Seq<u8>>> {
    v.map_values(|o: Option<Vec<u8>>| match o {
        Some(b) => Some(b@),
        None => None,
    })
}

/// The view of per-argument vectors of answers.
pub open spec fn nested_answers_view(v: Seq<Vec<Option<Vec<u8>>>>) -> Seq<Seq<Option<Seq<u8>>>> {
    v.map_values(|w: Vec<Option<Vec<u8>>>| answers_view(w@))
}

/// The first-round reads of a call: one entry per argument of a known
/// syscall, nothing for an unknown one.
pub open spec fn planned_reads(call: RawCall) -> Seq<Option<MemRead>> {
    match rule_spec(call.a) {
        Some(r) => Seq::new(r.arity as nat, |i: int| arg_read(r.args@[i], call)),
        None => Seq::empty(),
    }
}

/// The accepted first-round answer for argument `i`.
pub open spec fn got_at(call: RawCall, r: Rule, first: Seq<Option<Seq<u8>>>, i: int) -> Option<
    Seq<u8>,
> {
    accepted(arg_read(r.args@[i], call), answer_at(first, i))
}

/// The second-round reads: for each string-vector argument whose pairs were
/// read, one read per element; nothing for the other arguments.
pub open spec fn planned_element_reads(call: RawCall, first: Seq<Option<Seq<u8>>>) -> Seq<
    Seq<MemRead>,
> {
    match rule_spec(call.a) {
        Some(r) => Seq::new(
            r.arity as nat,
            |i: int|
                match (r.args@[i], got_at(call, r, first, i)) {
                    (Arg::Vector(_, _), Some(b)) => vector_reads(b),
                    _ => Seq::empty(),
                },
        ),
        None => Seq::empty(),
    }
}

pub open spec fn unknown_name(a: usize) -> Seq<char> {
    "UNKNOWN"@ + dec_text(a as nat) + seq![' '] + hex_text(a as nat)
}

/// The name part of a call's rendering.
pub open spec fn call_name(call: RawCall) -> Seq<char> {
    match rule_spec(call.a) {
        Some(r) => r.name@,
        None => unknown_name(call.a),
    }
}

/// The rendered arguments of a call, given both rounds of answers. An unknown
/// syscall shows its five argument words in hexadecimal.
pub open spec fn call_args(
    call: RawCall,
    first: Seq<Option<Seq<u8>>>,
    second: Seq<Seq<Option<Seq<u8>>>>,
) -> Seq<Seq<char>> {
    match rule_spec(call.a) {
        Some(r) => Seq::new(
            r.arity as nat,
            |i: int| arg_text(r.args@[i], call, got_at(call, r, first, i), answers_at(second, i)),
        ),
        None => seq![
            hex_text(call.b as nat),
            hex_text(call.c as nat),
            hex_text(call.d as nat),
            hex_text(call.e as nat),
            hex_text(call.f as nat),
        ],
    }
}

/// `name(arg, arg, ...)`.
pub open spec fn call_shape(name: Seq<char>, args: Seq<Seq<char>>) -> Seq<char> {
    name + seq!['('] + join(args) + seq![')']
}

/// The full rendering of a call.
pub open spec fn call_text(
    call: RawCall,
    first: Seq<Option<Seq<u8>>>,
    second: Seq<Seq<Option<Seq<u8>>>>,
) -> Seq<char> {
    call_shape(call_name(call), call_args(call, first, second))
}

/// A decoded syscall: its name and its rendered arguments.
pub struct DecodedCall {
    pub name: String,
    pub args: Vec<String>,
}

impl View for DecodedCall {
    type V = (Seq<char>, Seq<Seq<char>>);

    open spec fn view(&self) -> (Seq<char>, Seq<Seq<char>>) {
        (self.name@, self.args@.map_values(|a: String| a@))
    }
}

pub proof fn lemma_join_step(items: Seq<Seq<char>>, k: int)
    requires
        0 <= k < items.len(),
    ensures
        join(items.take(k + 1)) == join(items.take(k)) + (if k == 0 {
            Seq::<char>::empty()
        } else {
            seq![',', ' ']
        }) + items[k],
{
    let t = items.take(k + 1);
    assert(t.drop_last() =~= items.take(k));
    if k == 0 {
        assert(join(items.take(0)) =~= Seq::<char>::empty());
        assert(join(t) == t[0]);
        assert(join(t) =~= join(items.take(k)) + Seq::<char>::empty() + items[k]);
    }
}

/// Appends the separator that goes before item `k` of a list.
fn push_separator(s: &mut String, k: usize)
    ensures
        final(s)@ == old(s)@ + (if k == 0 {
            Seq::<char>::empty()
        } else {
            seq![',', ' ']
        }),
{
    if k > 0 {
        push_char(s, ',');
        push_char(s, ' ');
    } else {
        assert(old(s)@ + Seq::<char>::empty() =~= old(s)@);
    }
}

impl DecodedCall {
    /// Renders `name(arg, arg, ...)`.
    pub fn render(&self) -> (r: String)
        ensures
            r@ == call_shape(self@.0, self@.1),
    {
        let mut s = String::from_str(self.name.as_str());
        push_char(&mut s, '(');
        let ghost items = self@.1;
        let mut k: usize = 0;
        while k < self.args.len()
            invariant
                k <= self.args@.len(),
                items == self@.1,
                items.len() == self.args@.len(),
                s@ == self.name@ + seq!['('] + join(items.take(k as int)),
            decreases self.args@.len() - k,
        {
            proof {
                lemma_join_step(items, k as int);
            }
            push_separator(&mut s, k);
            push_str(&mut s, self.args[k].as_str());
            assert(items[k as int] == self.args@[k as int]@);
            assert(s@ =~= self.name@ + seq!['('] + join(items.take(k + 1)));
            k += 1;
        }
        push_char(&mut s, ')');
        assert(items.take(k as int) =~= items);
        assert(s@ =~= call_shape(self@.0, self@.1));
        s
    }
}


fn read_u64(b: &[u8], off: usize) -> (r: u64)
    requires
        off + 8 <= b@.len(),
    ensures
        r == le_u64(b@, off as int),
{
    (b[off] as u64) | ((b[off + 1] as u64) << 8u64) | ((b[off + 2] as u64) << 16u64) | ((
    b[off + 3] as u64) << 24u64) | ((b[off + 4] as u64) << 32u64) | ((b[off + 5] as u64)
        << 40u64) | ((b[off + 6] as u64) << 48u64) | ((b[off + 7] as u64) << 56u64)
}

fn read_i32(b: &[u8]) -> (r: i32)
    requires
        4 <= b@.len(),
    ensures
        r == le_i32(b@),
{
    ((b[0] as u32) | ((b[1] as u32) << 8u32) | ((b[2] as u32) << 16u32) | ((b[3] as u32)
        << 24u32)) as i32
}

fn count_value(count: Count, call: &RawCall, size: usize) -> (r: usize)
    requires
        size > 0,
    ensures
        r as nat == count_of(count, *call, size as nat),
{
    match count {
        Count::One => 1,
        Count::Two => 2,
        Count::Slot(s) => slot_word(call, s),
        Count::Bytes(s) => slot_word(call, s) / size,
    }
}

fn sized(address: usize, n: usize, size: usize) -> (r: Option<MemRead>)
    ensures
        r == sized_read(address, n as nat, size as nat),
{
    match n.checked_mul(size) {
        Some(length) => Some(MemRead { address, length }),
        None => None,
    }
}

/// The first-round read that one argument needs, if any.
pub fn read_for(arg: Arg, call: &RawCall) -> (r: Option<MemRead>)
    ensures
        r == arg_read(arg, *call),
{
    match arg {
        Arg::Bytes(p, l) => Some(MemRead { address: slot_word(call, p), length: slot_word(call, l) }),
        Arg::Records(kind, p, n) => {
            let size = record_len(kind);
            sized(slot_word(call, p), count_value(n, call, size), size)
        },
        Arg::Pairs(p, n) => sized(slot_word(call, p), count_value(n, call, 16), 16),
        Arg::Words(p, n) => sized(slot_word(call, p), count_value(n, call, 8), 8),
        Arg::Futex(p) => Some(MemRead { address: slot_word(call, p), length: 4 }),
        Arg::Vector(p, n) => sized(slot_word(call, p), slot_word(call, n), 16),
        _ => None,
    }
}

/// The answer at `i`, kept only when it has the length that `read` asked for.
fn accept<'a>(read: Option<MemRead>, answers: &'a Vec<Option<Vec<u8>>>, i: usize) -> (r: Option<&'a Vec<u8>>)
    ensures
        match r {
            Some(v) => accepted(read, answer_at(answers_view(answers@), i as int)) == Some(v@),
            None => accepted(read, answer_at(answers_view(answers@), i as int)) is None,
        },
{
    match read {
        None => None,
        Some(rd) => if i < answers.len() {
            match &answers[i] {
                Some(v) => if v.len() == rd.length {
                    Some(v)
                } else {
                    None
                },
                None => None,
            }
        } else {
            None
        },
    }
}

/// The reads of the first round, one entry per argument.
pub fn first_reads(call: &RawCall) -> (r: Vec<Option<MemRead>>)
    ensures
        r@ == planned_reads(*call),
{
    let mut out: Vec<Option<MemRead>> = Vec::new();
    match rule_of(call.a) {
        None => {},
        Some(rule) => {
            let mut i: usize = 0;
            while i < rule.arity
                invariant
                    rule_spec(call.a) == Some(rule),
                    rule.arity <= 5,
                    i <= rule.arity,
                    out@ =~= planned_reads(*call).take(i as int),
                decreases rule.arity - i,
            {
                let rd = read_for(rule.args[i], call);
                out.push(rd);
                i += 1;
            }
        },
    }
    out
}

/// The element reads of one string vector whose pairs are `b`.
fn element_reads(b: &Vec<u8>) -> (r: Vec<MemRead>)
    ensures
        r@ == vector_reads(b@),
{
    let mut out: Vec<MemRead> = Vec::new();
    let len = b.len();
    let n = len / 16;
    let mut k: usize = 0;
    while k < n
        invariant
            len == b@.len(),
            n == b@.len() / 16,
            k <= n,
            out@ =~= vector_reads(b@).take(k as int),
        decreases n - k,
    {
        assert(16 * k + 16 <= b@.len()) by (nonlinear_arith)
            requires
                k < n,
                n == b@.len() / 16,
        ;
        let address = read_u64(b.as_slice(), 16 * k) as usize;
        let length = read_u64(b.as_slice(), 16 * k + 8) as usize;
        out.push(MemRead { address, length });
        k += 1;
    }
    out
}

/// The reads of the second round, given the answers of the first: one list
/// per argument.
pub fn second_reads(call: &RawCall, first: &Vec<Option<Vec<u8>>>) -> (r: Vec<Vec<MemRead>>)
    ensures
        r@.len() == planned_element_reads(*call, answers_view(first@)).len(),
        forall|i: int|
            0 <= i < r@.len() ==> r@[i]@ == planned_element_reads(*call, answers_view(first@))[i],
{
    let ghost firstv = answers_view(first@);
    let mut out: Vec<Vec<MemRead>> = Vec::new();
    match rule_of(call.a) {
        None => {},
        Some(rule) => {
            let mut i: usize = 0;
            while i < rule.arity
                invariant
                    rule_spec(call.a) == Some(rule),
                    firstv == answers_view(first@),
                    rule.arity <= 5,
                    i <= rule.arity,
                    out@.len() == i,
                    forall|j: int|
                        0 <= j < i ==> out@[j]@ == planned_element_reads(*call, firstv)[j],
                decreases rule.arity - i,
            {
                let arg = rule.args[i];
                let got = accept(read_for(arg, call), first, i);
                let reads = match (arg, got) {
                    (Arg::Vector(_, _), Some(b)) => element_reads(b),
                    _ => Vec::new(),
                };
                assert(reads@ == planned_element_reads(*call, firstv)[i as int]);
                out.push(reads);
                i += 1;
            }
        },
    }
    out
}


fn push_error(s: &mut String)
    ensures
        final(s)@ == old(s)@ + error_text(),
{
    push_str(s, "error");
    proof {
        reveal_strlit("error");
    }
    assert(final(s)@ =~= old(s)@ + error_text());
}

fn push_unresolvable(s: &mut String)
    ensures
        final(s)@ == old(s)@ + unresolvable_text(),
{
    push_str(s, "unresolvable");
    proof {
        reveal_strlit("unresolvable");
    }
    assert(final(s)@ =~= old(s)@ + unresolvable_text());
}

fn record_string(kind: RecordKind, b: &[u8]) -> (r: String)
    requires
        b@.len() == record_size(kind),
    ensures
        r@ == record_debug(kind, b@),
{
    match kind {
        RecordKind::MemMap => map_text(b),
        RecordKind::FileStat => stat_text(b),
        RecordKind::TimeSpec => timespec_text(b),
    }
}

fn push_records(s: &mut String, kind: RecordKind, b: &Vec<u8>)
    ensures
        final(s)@ == old(s)@ + bracketed(records_items(kind, b@)),
{
    let ghost start = s@;
    let ghost items = records_items(kind, b@);
    let size = record_len(kind);
    let len = b.len();
    let n = len / size;
    push_char(s, '[');
    let mut k: usize = 0;
    while k < n
        invariant
            size == record_size(kind),
            size > 0,
            len == b@.len(),
            n == len / size,
            items == records_items(kind, b@),
            items.len() == n,
            k <= n,
            s@ == start + seq!['['] + join(items.take(k as int)),
        decreases n - k,
    {
        assert(k * size + size <= len) by (nonlinear_arith)
            requires
                k < n,
                n == len / size,
                size > 0,
        ;
        let piece = slice_subrange(b.as_slice(), k * size, k * size + size);
        let t = record_string(kind, piece);
        proof {
            lemma_join_step(items, k as int);
        }
        push_separator(s, k);
        push_str(s, t.as_str());
        assert(s@ =~= start + seq!['['] + join(items.take(k + 1)));
        k += 1;
    }
    push_char(s, ']');
    assert(items.take(n as int) =~= items);
    assert(s@ =~= start + bracketed(items));
}

fn push_pairs(s: &mut String, b: &Vec<u8>)
    ensures
        final(s)@ == old(s)@ + bracketed(pairs_items(b@)),
{
    let ghost start = s@;
    let ghost items = pairs_items(b@);
    let len = b.len();
    let n = len / 16;
    push_char(s, '[');
    let mut k: usize = 0;
    while k < n
        invariant
            len == b@.len(),
            n == len / 16,
            items == pairs_items(b@),
            items.len() == n,
            k <= n,
            s@ == start + seq!['['] + join(items.take(k as int)),
        decreases n - k,
    {
        assert(16 * k + 16 <= len) by (nonlinear_arith)
            requires
                k < n,
                n == len / 16,
        ;
        let x = read_u64(b.as_slice(), 16 * k);
        let y = read_u64(b.as_slice(), 16 * k + 8);
        proof {
            lemma_join_step(items, k as int);
        }
        push_separator(s, k);
        push_char(s, '[');
        push_dec(s, x);
        push_char(s, ',');
        push_char(s, ' ');
        push_dec(s, y);
        push_char(s, ']');
        assert(s@ =~= start + seq!['['] + join(items.take(k + 1)));
        k += 1;
    }
    push_char(s, ']');
    assert(items.take(n as int) =~= items);
    assert(s@ =~= start + bracketed(items));
}

fn push_words(s: &mut String, b: &Vec<u8>)
    ensures
        final(s)@ == old(s)@ + bracketed(words_items(b@)),
{
    let ghost start = s@;
    let ghost items = words_items(b@);
    let len = b.len();
    let n = len / 8;
    push_char(s, '[');
    let mut k: usize = 0;
    while k < n
        invariant
            len == b@.len(),
            n == len / 8,
            items == words_items(b@),
            items.len() == n,
            k <= n,
            s@ == start + seq!['['] + join(items.take(k as int)),
        decreases n - k,
    {
        assert(8 * k + 8 <= len) by (nonlinear_arith)
            requires
                k < n,
                n == len / 8,
        ;
        let x = read_u64(b.as_slice(), 8 * k);
        proof {
            lemma_join_step(items, k as int);
        }
        push_separator(s, k);
        push_dec(s, x);
        assert(s@ =~= start + seq!['['] + join(items.take(k + 1)));
        k += 1;
    }
    push_char(s, ']');
    assert(items.take(n as int) =~= items);
    assert(s@ =~= start + bracketed(items));
}

fn push_vector(s: &mut String, b: &Vec<u8>, elems: &Vec<Option<Vec<u8>>>)
    ensures
        final(s)@ == old(s)@ + bracketed(vector_items(b@, answers_view(elems@))),
{
    let ghost start = s@;
    let ghost items = vector_items(b@, answers_view(elems@));
    let reads = element_reads(b);
    let n = reads.len();
    push_char(s, '[');
    let mut k: usize = 0;
    while k < n
        invariant
            reads@ == vector_reads(b@),
            n == reads@.len(),
            items == vector_items(b@, answers_view(elems@)),
            items.len() == n,
            k <= n,
            s@ == start + seq!['['] + join(items.take(k as int)),
        decreases n - k,
    {
        let got = accept(Some(reads[k]), elems, k);
        proof {
            lemma_join_step(items, k as int);
        }
        push_separator(s, k);
        match got {
            Some(v) => match utf8_string(v.as_slice()) {
                Some(text) => {
                    let shown = debug_text(&text);
                    push_str(s, shown.as_str());
                },
                None => push_unresolvable(s),
            },
            None => push_unresolvable(s),
        }
        assert(s@ =~= start + seq!['['] + join(items.take(k + 1)));
        k += 1;
    }
    push_char(s, ']');
    assert(items.take(n as int) =~= items);
    assert(s@ =~= start + bracketed(items));
}

fn push_flags(s: &mut String, kind: FlagKind, bits: usize)
    ensures
        final(s)@ == old(s)@ + flags_debug(kind, bits),
{
    let t = match kind {
        FlagKind::CloneSet => clone_flags_text(bits),
        FlagKind::MapSet => map_flags_text(bits),
        FlagKind::PhysmapSet => physmap_flags_text(bits),
        FlagKind::WaitSet => wait_flags_text(bits),
    };
    push_str(s, t.as_str());
}

fn push_named_number(s: &mut String, name: &str, n: usize)
    ensures
        final(s)@ == old(s)@ + named_number(name@, n),
{
    push_str(s, name);
    push_char(s, ' ');
    push_char(s, '(');
    push_dec(s, n as u64);
    push_char(s, ')');
    assert(final(s)@ =~= old(s)@ + named_number(name@, n));
}

fn whence(w: usize) -> (r: &'static str)
    ensures
        r@ == whence_name(w),
{
    if w == numbers::SEEK_SET {
        "SEEK_SET"
    } else if w == numbers::SEEK_CUR {
        "SEEK_CUR"
    } else if w == numbers::SEEK_END {
        "SEEK_END"
    } else {
        "UNKNOWN"
    }
}

fn fcntl_cmd(c: usize) -> (r: &'static str)
    ensures
        r@ == fcntl_name(c),
{
    if c == numbers::F_DUPFD {
        "F_DUPFD"
    } else if c == numbers::F_GETFD {
        "F_GETFD"
    } else if c == numbers::F_SETFD {
        "F_SETFD"
    } else if c == numbers::F_SETFL {
        "F_SETFL"
    } else if c == numbers::F_GETFL {
        "F_GETFL"
    } else {
        "UNKNOWN"
    }
}

pub open spec fn opt_view(o: Option<&Vec<u8>>) -> Option<Seq<u8>> {
    match o {
        Some(v) => Some(v@),
        None => None,
    }
}

/// Renders one argument, given its accepted first-round answer and the
/// second-round answers for its elements.
fn arg_string(arg: Arg, call: &RawCall, got: Option<&Vec<u8>>, elems: &Vec<Option<Vec<u8>>>) -> (r: String)
    requires
        got is Some ==> accepted(arg_read(arg, *call), opt_view(got)) == opt_view(got),
    ensures
        r@ == arg_text(arg, *call, opt_view(got), answers_view(elems@)),
{
    let mut s = String::new();
    match arg {
        Arg::Dec(x) => push_dec(&mut s, slot_word(call, x) as u64),
        Arg::Hex(x) => push_hex(&mut s, slot_word(call, x) as u64),
        Arg::Oct(x) => push_oct(&mut s, slot_word(call, x) as u64),
        Arg::Signed(x) => push_signed(&mut s, slot_word(call, x) as i64),
        Arg::Whence(x) => {
            let w = slot_word(call, x);
            push_named_number(&mut s, whence(w), w);
        },
        Arg::FcntlCmd(x) => {
            let c = slot_word(call, x);
            push_named_number(&mut s, fcntl_cmd(c), c);
        },
        Arg::FlagSet(kind, x) => push_flags(&mut s, kind, slot_word(call, x)),
        Arg::Tuple(x, y) => {
            push_char(&mut s, '(');
            push_dec(&mut s, slot_word(call, x) as u64);
            push_char(&mut s, ',');
            push_char(&mut s, ' ');
            push_dec(&mut s, slot_word(call, y) as u64);
            push_char(&mut s, ')');
        },
        Arg::Futex(p) => {
            push_hex(&mut s, slot_word(call, p) as u64);
            push_char(&mut s, ' ');
            push_char(&mut s, '[');
            match got {
                Some(b) => push_signed(&mut s, read_i32(b.as_slice()) as i64),
                None => push_error(&mut s),
            }
            push_char(&mut s, ']');
        },
        _ => match got {
            None => push_error(&mut s),
            Some(b) => match arg {
                Arg::Bytes(_, _) => push_quoted(&mut s, b.as_slice()),
                Arg::Records(kind, _, _) => push_records(&mut s, kind, b),
                Arg::Pairs(_, _) => push_pairs(&mut s, b),
                Arg::Words(_, _) => push_words(&mut s, b),
                _ => push_vector(&mut s, b, elems),
            },
        },
    }
    assert(s@ =~= arg_text(arg, *call, opt_view(got), answers_view(elems@)));
    s
}


/// Decodes a call, given the answers to the reads of [`first_reads`] (one
/// per argument) and of [`second_reads`] (one list per argument). Missing
/// answers count as failed reads.
pub fn decode_call(
    call: &RawCall,
    first: &Vec<Option<Vec<u8>>>,
    second: &Vec<Vec<Option<Vec<u8>>>>,
) -> (r: DecodedCall)
    ensures
        r@.0 == call_name(*call),
        r@.1 == call_args(*call, answers_view(first@), nested_answers_view(second@)),
{
    let ghost fv = answers_view(first@);
    let ghost sv = nested_answers_view(second@);
    let mut args: Vec<String> = Vec::new();
    match rule_of(call.a) {
        Some(rule) => {
            let name = String::from_str(rule.name);
            let empty: Vec<Option<Vec<u8>>> = Vec::new();
            let mut i: usize = 0;
            while i < rule.arity
                invariant
                    rule_spec(call.a) == Some(rule),
                    fv == answers_view(first@),
                    sv == nested_answers_view(second@),
                    empty@.len() == 0,
                    rule.arity <= 5,
                    i <= rule.arity,
                    args@.len() == i,
                    forall|j: int| 0 <= j < i ==> #[trigger] args@[j]@ == call_args(*call, fv, sv)[j],
                decreases rule.arity - i,
            {
                let arg = rule.args[i];
                let got = accept(read_for(arg, call), first, i);
                let elems = if i < second.len() {
                    &second[i]
                } else {
                    &empty
                };
                assert(answers_view(elems@) =~= answers_at(sv, i as int));
                let t = arg_string(arg, call, got, elems);
                assert(t@ == call_args(*call, fv, sv)[i as int]);
                args.push(t);
                i += 1;
            }
            let r = DecodedCall { name, args };
            assert(r@.1 =~= call_args(*call, fv, sv));
            r
        },
        None => {
            let mut name = String::from_str("UNKNOWN");
            push_dec(&mut name, call.a as u64);
            push_char(&mut name, ' ');
            push_hex(&mut name, call.a as u64);
            let words = [call.b, call.c, call.d, call.e, call.f];
            let mut i: usize = 0;
            while i < 5
                invariant
                    rule_spec(call.a) is None,
                    words@ == seq![call.b, call.c, call.d, call.e, call.f],
                    i <= 5,
                    args@.len() == i,
                    forall|j: int| 0 <= j < i ==> #[trigger] args@[j]@ == call_args(*call, fv, sv)[j],
                decreases 5 - i,
            {
                let mut t = String::new();
                push_hex(&mut t, words[i] as u64);
                assert(t@ =~= call_args(*call, fv, sv)[i as int]);
                args.push(t);
                i += 1;
            }
            assert(name@ =~= unknown_name(call.a));
            let r = DecodedCall { name, args };
            assert(r@.1 =~= call_args(*call, fv, sv));
            r
        },
    }
}

/// Renders a call as `name(arg, arg, ...)`, given both rounds of answers.
pub fn format_call(
    call: &RawCall,
    first: &Vec<Option<Vec<u8>>>,
    second: &Vec<Vec<Option<Vec<u8>>>>,
) -> (r: String)
    ensures
        r@ == call_text(*call, answers_view(first@), nested_answers_view(second@)),
{
    let d = decode_call(call, first, second);
    d.render()
}

/// Renders a call without access to tracee memory: every argument that
/// points into memory shows as unresolved.
pub fn format_call_bare(call: &RawCall) -> (r: String)
    ensures
        r@ == call_text(*call, Seq::empty(), Seq::empty()),
{
    let first: Vec<Option<Vec<u8>>> = Vec::new();
    let second: Vec<Vec<Option<Vec<u8>>>> = Vec::new();
    assert(answers_view(first@) =~= Seq::empty());
    assert(nested_answers_view(second@) =~= Seq::empty());
    format_call(call, &first, &second)
}

/// Decoding is total: a number outside the table renders as `UNKNOWN`, the
/// number in decimal and hexadecimal, and the five argument words in
/// hexadecimal, whatever the answers.
pub proof fn lemma_unknown_call(
    call: RawCall,
    first: Seq<Option<Seq<u8>>>,
    second: Seq<Seq<Option<Seq<u8>>>>,
)
    requires
        rule_spec(call.a) is None,
    ensures
        call_text(call, first, second) == "UNKNOWN"@ + dec_text(call.a as nat) + seq![' ']
            + hex_text(call.a as nat) + seq!['('] + hex_text(call.b as nat) + seq![',', ' ']
            + hex_text(call.c as nat) + seq![',', ' '] + hex_text(call.d as nat) + seq![',', ' ']
            + hex_text(call.e as nat) + seq![',', ' '] + hex_text(call.f as nat) + seq![')'],
{
    let items = call_args(call, first, second);
    let hb = hex_text(call.b as nat);
    let hc = hex_text(call.c as nat);
    let hd = hex_text(call.d as nat);
    let he = hex_text(call.e as nat);
    let hf = hex_text(call.f as nat);
    let sep = seq![',', ' '];
    let i1 = seq![hb];
    let i2 = i1.push(hc);
    let i3 = i2.push(hd);
    let i4 = i3.push(he);
    let i5 = i4.push(hf);
    assert(items =~= i5);
    assert(join(i1) == hb);
    assert(i2.drop_last() =~= i1);
    assert(join(i2) == join(i1) + sep + hc);
    assert(i3.drop_last() =~= i2);
    assert(join(i3) == join(i2) + sep + hd);
    assert(i4.drop_last() =~= i3);
    assert(join(i4) == join(i3) + sep + he);
    assert(i5.drop_last() =~= i4);
    assert(join(i5) == join(i4) + sep + hf);
    assert(call_text(call, first, second) =~= "UNKNOWN"@ + dec_text(call.a as nat) + seq![' ']
            + hex_text(call.a as nat) + seq!['('] + hex_text(call.b as nat) + seq![',', ' ']
            + hex_text(call.c as nat) + seq![',', ' '] + hex_text(call.d as nat) + seq![',', ' ']
            + hex_text(call.e as nat) + seq![',', ' '] + hex_text(call.f as nat) + seq![')']);
}

/// Each argument renders from its own reads alone: changing the answers
/// that belong to argument `k` (a failed read among them) leaves the text of
/// every other argument as it was.
pub proof fn lemma_arguments_independent(
    call: RawCall,
    first: Seq<Option<Seq<u8>>>,
    second: Seq<Seq<Option<Seq<u8>>>>,
    k: int,
    other_first: Option<Seq<u8>>,
    other_second: Seq<Option<Seq<u8>>>,
    j: int,
)
    requires
        0 <= k < first.len(),
        0 <= k < second.len(),
        0 <= j < call_args(call, first, second).len(),
        j != k,
    ensures
        call_args(call, first.update(k, other_first), second.update(k, other_second)).len()
            == call_args(call, first, second).len(),
        call_args(call, first.update(k, other_first), second.update(k, other_second))[j]
            == call_args(call, first, second)[j],
{
    let f2 = first.update(k, other_first);
    let s2 = second.update(k, other_second);
    assert(answer_at(f2, j) == answer_at(first, j));
    assert(answers_at(s2, j) == answers_at(second, j));
}

} // verus!

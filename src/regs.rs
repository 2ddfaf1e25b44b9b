//! Register snapshots: the fixed-size records of the integer and float
//! register channels, and the trap instruction for breakpoints.
use vstd::prelude::*;
use crate::decode::{call_text, format_call_bare, le_u64, RawCall};
use crate::f80::{f80_to_f64_bits, f80_to_f64_spec};

verus! {

/// Size in bytes of the integer register record.
pub const INT_REGISTERS_SIZE: usize = 168;
/// Size in bytes of the float register record.
pub const FLOAT_REGISTERS_SIZE: usize = 416;
/// Byte offset of the first x87 stack slot in the float register record.
pub const ST_SPACE_OFFSET: usize = 32;
/// The software breakpoint instruction (`int3`).
pub const BREAKPOINT_INSTRUCTION: u8 = 0xCC;

/// The integer registers of an x86_64 tracee, in record order.
#[derive(Clone, Copy, Debug, PartialEq, Eq, Structural)]
pub struct IntRegisters {
    pub r15: usize,
    pub r14: usize,
    pub r13: usize,
    pub r12: usize,
    pub rbp: usize,
    pub rbx: usize,
    pub r11: usize,
    pub r10: usize,
    pub r9: usize,
    pub r8: usize,
    pub rax: usize,
    pub rcx: usize,
    pub rdx: usize,
    pub rsi: usize,
    pub rdi: usize,
    pub rip: usize,
    pub cs: usize,
    pub rflags: usize,
    pub rsp: usize,
    pub ss: usize,
    pub fs: usize,
}

/// The registers that a record holds.
pub open spec fn int_registers_of(b: Seq<u8>) -> IntRegisters {
    IntRegisters {
        r15: le_u64(b, 0) as usize,
        r14: le_u64(b, 8) as usize,
        r13: le_u64(b, 16) as usize,
        r12: le_u64(b, 24) as usize,
        rbp: le_u64(b, 32) as usize,
        rbx: le_u64(b, 40) as usize,
        r11: le_u64(b, 48) as usize,
        r10: le_u64(b, 56) as usize,
        r9: le_u64(b, 64) as usize,
        r8: le_u64(b, 72) as usize,
        rax: le_u64(b, 80) as usize,
        rcx: le_u64(b, 88) as usize,
        rdx: le_u64(b, 96) as usize,
        rsi: le_u64(b, 104) as usize,
        rdi: le_u64(b, 112) as usize,
        rip: le_u64(b, 120) as usize,
        cs: le_u64(b, 128) as usize,
        rflags: le_u64(b, 136) as usize,
        rsp: le_u64(b, 144) as usize,
        ss: le_u64(b, 152) as usize,
        fs: le_u64(b, 160) as usize,
    }
}

/// The record's words, in order.
pub open spec fn int_words(r: IntRegisters) -> Seq<u64> {
    seq![r.r15 as u64, r.r14 as u64, r.r13 as u64, r.r12 as u64, r.rbp as u64, r.rbx as u64, r.r11 as u64, r.r10 as u64, r.r9 as u64, r.r8 as u64, r.rax as u64, r.rcx as u64, r.rdx as u64, r.rsi as u64, r.rdi as u64, r.rip as u64, r.cs as u64, r.rflags as u64, r.rsp as u64, r.ss as u64, r.fs as u64]
}

/// The eight little-endian bytes of `w`.
pub open spec fn word_bytes(w: u64) -> Seq<u8> {
    Seq::new(8, |j: int| ((w >> (8 * j) as u64) & 0xff) as u8)
}

/// The bytes of a sequence of words.
pub open spec fn words_bytes(ws: Seq<u64>) -> Seq<u8>
    decreases ws.len(),
{
    if ws.len() == 0 {
        Seq::empty()
    } else {
        words_bytes(ws.drop_last()) + word_bytes(ws.last())
    }
}

fn read_word(b: &[u8], off: usize) -> (r: u64)
    requires
        off + 8 <= b@.len(),
    ensures
        r == le_u64(b@, off as int),
{
    (b[off] as u64) | ((b[off + 1] as u64) << 8u64) | ((b[off + 2] as u64) << 16u64) | ((
    b[off + 3] as u64) << 24u64) | ((b[off + 4] as u64) << 32u64) | ((b[off + 5] as u64)
        << 40u64) | ((b[off + 6] as u64) << 48u64) | ((b[off + 7] as u64) << 56u64)
}

pub(crate) fn push_word(out: &mut Vec<u8>, w: u64)
    ensures
        final(out)@ == old(out)@ + word_bytes(w),
{
    let mut j: u64 = 0;
    while j < 8
        invariant
            j <= 8,
            out@ == old(out)@ + word_bytes(w).take(j as int),
        decreases 8 - j,
    {
        let byte = (w >> (8 * j)) & 0xff;
        assert(byte <= 0xff) by (bit_vector)
            requires
                byte == (w >> (8 * j)) & 0xff,
        ;
        out.push(byte as u8);
        assert(out@ =~= old(out)@ + word_bytes(w).take(j + 1));
        j += 1;
    }
    assert(word_bytes(w).take(8) =~= word_bytes(w));
}

impl IntRegisters {
    /// The registers of a record; `None` when `b` is not exactly one record
    /// long (a short read).
    pub fn from_bytes(b: &[u8]) -> (r: Option<IntRegisters>)
        ensures
            b@.len() == INT_REGISTERS_SIZE ==> r == Some(int_registers_of(b@)),
            b@.len() != INT_REGISTERS_SIZE ==> r is None,
    {
        if b.len() != INT_REGISTERS_SIZE {
            return None;
        }
        Some(IntRegisters {
            r15: read_word(b, 0) as usize,
            r14: read_word(b, 8) as usize,
            r13: read_word(b, 16) as usize,
            r12: read_word(b, 24) as usize,
            rbp: read_word(b, 32) as usize,
            rbx: read_word(b, 40) as usize,
            r11: read_word(b, 48) as usize,
            r10: read_word(b, 56) as usize,
            r9: read_word(b, 64) as usize,
            r8: read_word(b, 72) as usize,
            rax: read_word(b, 80) as usize,
            rcx: read_word(b, 88) as usize,
            rdx: read_word(b, 96) as usize,
            rsi: read_word(b, 104) as usize,
            rdi: read_word(b, 112) as usize,
            rip: read_word(b, 120) as usize,
            cs: read_word(b, 128) as usize,
            rflags: read_word(b, 136) as usize,
            rsp: read_word(b, 144) as usize,
            ss: read_word(b, 152) as usize,
            fs: read_word(b, 160) as usize,
        })
    }

    /// The record that holds these registers.
    pub fn to_bytes(&self) -> (r: Vec<u8>)
        ensures
            r@ == words_bytes(int_words(*self)),
    {
        let mut out: Vec<u8> = Vec::new();
        push_word(&mut out, self.r15 as u64);
        push_word(&mut out, self.r14 as u64);
        push_word(&mut out, self.r13 as u64);
        push_word(&mut out, self.r12 as u64);
        push_word(&mut out, self.rbp as u64);
        push_word(&mut out, self.rbx as u64);
        push_word(&mut out, self.r11 as u64);
        push_word(&mut out, self.r10 as u64);
        push_word(&mut out, self.r9 as u64);
        push_word(&mut out, self.r8 as u64);
        push_word(&mut out, self.rax as u64);
        push_word(&mut out, self.rcx as u64);
        push_word(&mut out, self.rdx as u64);
        push_word(&mut out, self.rsi as u64);
        push_word(&mut out, self.rdi as u64);
        push_word(&mut out, self.rip as u64);
        push_word(&mut out, self.cs as u64);
        push_word(&mut out, self.rflags as u64);
        push_word(&mut out, self.rsp as u64);
        push_word(&mut out, self.ss as u64);
        push_word(&mut out, self.fs as u64);
        assert(out@ =~= words_bytes(int_words(*self))) by {
            let ws = int_words(*self);
            assert forall|k: int| 0 < k <= 21 implies #[trigger] words_bytes(ws.take(k)) == words_bytes(ws.take(k - 1)) + word_bytes(ws[k - 1]) by {
                assert(ws.take(k).drop_last() =~= ws.take(k - 1));
            }
            assert(ws.take(0) =~= Seq::<u64>::empty());
            assert(ws.take(21) =~= ws);
            assert(out@ =~= words_bytes(ws.take(21)));
        }
        out
    }

    /// The syscall these registers hold: the number in `rax` and the
    /// arguments in `rdi`, `rsi`, `rdx`, `r10` and `r8`.
    pub fn syscall(&self) -> (r: RawCall)
        ensures
            r == (RawCall { a: self.rax, b: self.rdi, c: self.rsi, d: self.rdx, e: self.r10, f: self.r8 }),
    {
        RawCall { a: self.rax, b: self.rdi, c: self.rsi, d: self.rdx, e: self.r10, f: self.r8 }
    }

    /// A syscall's return word, held in `rax`.
    pub fn return_value(&self) -> (r: usize)
        ensures
            r == self.rax,
    {
        self.rax
    }

    /// Renders the syscall these registers hold, without tracee memory.
    pub fn format_syscall_bare(&self) -> (r: String)
        ensures
            r@ == call_text(
                RawCall { a: self.rax, b: self.rdi, c: self.rsi, d: self.rdx, e: self.r10, f: self.r8 },
                Seq::empty(),
                Seq::empty(),
            ),
    {
        format_call_bare(&self.syscall())
    }
}

/// The float registers of an x86_64 tracee, as their record.
pub struct FloatRegisters {
    raw: Vec<u8>,
}

/// The 80-bit value of x87 stack slot `i` of a float register record.
pub open spec fn st_value(b: Seq<u8>, i: int) -> u128 {
    (le_u64(b, ST_SPACE_OFFSET + 16 * i) as u128) | ((((b[ST_SPACE_OFFSET + 16 * i + 8] as u64) | ((
    b[ST_SPACE_OFFSET + 16 * i + 9] as u64) << 8u64)) as u128) << 64u128)
}

impl View for FloatRegisters {
    type V = Seq<u8>;

    closed spec fn view(&self) -> Seq<u8> {
        self.raw@
    }
}

impl FloatRegisters {
    pub closed spec fn wf(&self) -> bool {
        self.raw@.len() == FLOAT_REGISTERS_SIZE
    }

    /// The registers of a record; `None` when `b` is not exactly one record
    /// long (a short read).
    pub fn from_bytes(b: &[u8]) -> (r: Option<FloatRegisters>)
        ensures
            b@.len() == FLOAT_REGISTERS_SIZE ==> r is Some && r->0.wf() && r->0@ == b@,
            b@.len() != FLOAT_REGISTERS_SIZE ==> r is None,
    {
        if b.len() != FLOAT_REGISTERS_SIZE {
            return None;
        }
        let mut raw: Vec<u8> = Vec::new();
        let mut i: usize = 0;
        while i < b.len()
            invariant
                i <= b@.len(),
                raw@ == b@.take(i as int),
            decreases b@.len() - i,
        {
            raw.push(b[i]);
            assert(raw@ =~= b@.take(i + 1));
            i += 1;
        }
        assert(b@.take(i as int) =~= b@);
        Some(FloatRegisters { raw })
    }

    /// The record, to write back.
    pub fn as_bytes(&self) -> (r: &[u8])
        ensures
            r@ == self@,
    {
        self.raw.as_slice()
    }

    /// The 80-bit value in x87 stack slot `i`.
    pub fn st(&self, i: usize) -> (r: u128)
        requires
            self.wf(),
            i < 8,
        ensures
            r == st_value(self@, i as int),
            r < 0x1_0000_0000_0000_0000_0000,
    {
        let off = ST_SPACE_OFFSET + 16 * i;
        let lo = read_word(self.raw.as_slice(), off);
        let hi: u64 = (self.raw[off + 8] as u64) | ((self.raw[off + 9] as u64) << 8u64);
        let b8 = self.raw[off + 8];
        let b9 = self.raw[off + 9];
        assert(hi < 0x1_0000) by (bit_vector)
            requires
                hi == (b8 as u64) | ((b9 as u64) << 8u64),
        ;
        let r = (lo as u128) | ((hi as u128) << 64u128);
        assert(r < 0x1_0000_0000_0000_0000_0000) by (bit_vector)
            requires
                r == (lo as u128) | ((hi as u128) << 64u128),
                hi < 0x1_0000,
        ;
        r
    }

    /// The double in x87 stack slot `i`, as a bit pattern.
    pub fn st_f64_bits(&self, i: usize) -> (r: u64)
        requires
            self.wf(),
            i < 8,
        ensures
            r == f80_to_f64_spec(st_value(self@, i as int)),
    {
        f80_to_f64_bits(self.st(i))
    }
}

/// The bytes to write at a breakpoint's address.
pub fn breakpoint_bytes() -> (r: Vec<u8>)
    ensures
        r@ == seq![BREAKPOINT_INSTRUCTION],
{
    let mut v: Vec<u8> = Vec::new();
    v.push(BREAKPOINT_INSTRUCTION);
    v
}

} // verus!

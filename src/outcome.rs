//! Decoding of a syscall's return word into success or a named error.
use vstd::prelude::*;
use crate::numbers::ERRNO_LIMIT;
use crate::platform::{errno_text, error_text};
use crate::text::{dec_text, hex_text, push_char, push_dec, push_hex, push_str};

verus! {

/// What a syscall returned.
#[derive(Clone, Copy, Debug, PartialEq, Eq, Structural)]
pub enum Outcome {
    Success(usize),
    /// The positive error number.
    Failure(i32),
}

/// The low 32 bits of the return word.
pub open spec fn low_word(ret: usize) -> nat {
    ret as nat % 0x1_0000_0000
}

/// The return word read as a 32-bit value is the negation of an error
/// number that the platform names (1 up to below [`ERRNO_LIMIT`]); any other
/// word is a success value.
pub open spec fn outcome_of(ret: usize) -> Outcome {
    if low_word(ret) >= 0x1_0000_0000 - (ERRNO_LIMIT - 1) {
        Outcome::Failure((0x1_0000_0000 - low_word(ret)) as i32)
    } else {
        Outcome::Success(ret)
    }
}

/// Splits a return word into a success value or an error number.
pub fn demux(ret: usize) -> (r: Outcome)
    ensures
        r == outcome_of(ret),
{
    let low: u64 = (ret as u64) & 0xffff_ffff;
    assert(low as nat == low_word(ret)) by (bit_vector)
        requires
            low == (ret as u64) & 0xffff_ffff,
    ;
    if low >= 0x1_0000_0000 - (ERRNO_LIMIT as u64 - 1) {
        Outcome::Failure((0x1_0000_0000 - low) as i32)
    } else {
        Outcome::Success(ret)
    }
}

/// The rendering of a return word: `Ok(v (0xV))` on success, and
/// `Err("text" (0xE)) (0xRET)` with the error's text, its number and the raw
/// word on failure.
pub open spec fn return_text(ret: usize) -> Seq<char> {
    match outcome_of(ret) {
        Outcome::Success(v) => seq!['O', 'k', '('] + dec_text(v as nat) + seq![' ', '('] + hex_text(
            v as nat,
        ) + seq![')', ')'],
        Outcome::Failure(e) => seq!['E', 'r', 'r', '(', '"'] + errno_text(e) + seq!['"', ' ', '(']
            + hex_text(e as nat) + seq![')', ')', ' ', '('] + hex_text(ret as nat) + seq![')'],
    }
}

/// Renders a syscall's return word.
pub fn format_return(ret: usize) -> (r: String)
    ensures
        r@ == return_text(ret),
{
    let mut s = String::new();
    match demux(ret) {
        Outcome::Success(v) => {
            push_char(&mut s, 'O');
            push_char(&mut s, 'k');
            push_char(&mut s, '(');
            push_dec(&mut s, v as u64);
            push_char(&mut s, ' ');
            push_char(&mut s, '(');
            push_hex(&mut s, v as u64);
            push_char(&mut s, ')');
            push_char(&mut s, ')');
        },
        Outcome::Failure(e) => {
            let text = error_text(e);
            push_char(&mut s, 'E');
            push_char(&mut s, 'r');
            push_char(&mut s, 'r');
            push_char(&mut s, '(');
            push_char(&mut s, '"');
            push_str(&mut s, text.as_str());
            push_char(&mut s, '"');
            push_char(&mut s, ' ');
            push_char(&mut s, '(');
            push_hex(&mut s, e as u64);
            push_char(&mut s, ')');
            push_char(&mut s, ')');
            push_char(&mut s, ' ');
            push_char(&mut s, '(');
            push_hex(&mut s, ret as u64);
            push_char(&mut s, ')');
        },
    }
    assert(s@ =~= return_text(ret));
    s
}

} // verus!

//! Building rendered text: numbers in decimal, hexadecimal and octal, and
//! byte strings with ASCII escapes.
use vstd::prelude::*;

verus! {

/// Relies on `String::push`: appends exactly the one character.
#[verifier::external_body]
pub fn push_char(s: &mut String, c: char)
    ensures
        final(s)@ == old(s)@.push(c),
{
    s.push(c)
}

/// Appends a string slice.
pub fn push_str(s: &mut String, t: &str)
    ensures
        final(s)@ == old(s)@ + t@,
{
    s.append(t)
}

/// The digit character for `d` (upper-case letters above nine).
pub open spec fn digit_char(d: nat) -> char {
    if d < 10 {
        ((d + 48) as u8) as char
    } else {
        ((d + 55) as u8) as char
    }
}

/// The digits of `n` in base `base`, most significant first, without leading
/// zeros (zero is one digit).
pub open spec fn digits(n: nat, base: nat) -> Seq<char>
    decreases n via digits_decreases
{
    if base < 2 || n < base {
        seq![digit_char(n)]
    } else {
        digits(n / base, base).push(digit_char(n % base))
    }
}

#[via_fn]
proof fn digits_decreases(n: nat, base: nat) {
    if !(base < 2 || n < base) {
        assert(n / base < n) by (nonlinear_arith)
            requires
                base >= 2,
                n >= base,
        ;
    }
}

fn digit(d: u64) -> (c: char)
    requires
        d < 16,
    ensures
        c == digit_char(d as nat),
{
    if d < 10 {
        ((d + 48) as u8) as char
    } else {
        ((d + 55) as u8) as char
    }
}

/// Appends the digits of `n` in base `base`.
pub fn push_digits(s: &mut String, n: u64, base: u64)
    requires
        2 <= base <= 16,
    ensures
        final(s)@ == old(s)@ + digits(n as nat, base as nat),
    decreases n,
{
    if n < base {
        push_char(s, digit(n));
    } else {
        assert(n / base < n) by (nonlinear_arith)
            requires
                base >= 2,
                n >= base,
        ;
        push_digits(s, n / base, base);
        push_char(s, digit(n % base));
        assert(final(s)@ =~= old(s)@ + digits(n as nat, base as nat));
    }
}

/// Decimal text of `n`.
pub open spec fn dec_text(n: nat) -> Seq<char> {
    digits(n, 10)
}

/// `0x` followed by the upper-case hexadecimal digits of `n`.
pub open spec fn hex_text(n: nat) -> Seq<char> {
    seq!['0', 'x'] + digits(n, 16)
}

/// `0o` followed by the octal digits of `n`.
pub open spec fn oct_text(n: nat) -> Seq<char> {
    seq!['0', 'o'] + digits(n, 8)
}

/// Decimal text of a signed value, with a leading `-` when negative.
pub open spec fn signed_text(i: int) -> Seq<char> {
    if i < 0 {
        seq!['-'] + digits((-i) as nat, 10)
    } else {
        digits(i as nat, 10)
    }
}

pub fn push_dec(s: &mut String, n: u64)
    ensures
        final(s)@ == old(s)@ + dec_text(n as nat),
{
    push_digits(s, n, 10);
}

pub fn push_hex(s: &mut String, n: u64)
    ensures
        final(s)@ == old(s)@ + hex_text(n as nat),
{
    push_char(s, '0');
    push_char(s, 'x');
    push_digits(s, n, 16);
    assert(final(s)@ =~= old(s)@ + hex_text(n as nat));
}

pub fn push_oct(s: &mut String, n: u64)
    ensures
        final(s)@ == old(s)@ + oct_text(n as nat),
{
    push_char(s, '0');
    push_char(s, 'o');
    push_digits(s, n, 8);
    assert(final(s)@ =~= old(s)@ + oct_text(n as nat));
}

pub fn push_signed(s: &mut String, v: i64)
    ensures
        final(s)@ == old(s)@ + signed_text(v as int),
{
    if v < 0 {
        push_char(s, '-');
        let magnitude: u64 = (0i128 - v as i128) as u64;
        push_digits(s, magnitude, 10);
        assert(final(s)@ =~= old(s)@ + signed_text(v as int));
    } else {
        push_digits(s, v as u64, 10);
    }
}

/// Lower-case hexadecimal digit, as used in `\xNN` escapes.
pub open spec fn lower_digit_char(d: nat) -> char {
    if d < 10 {
        ((d + 48) as u8) as char
    } else {
        ((d + 87) as u8) as char
    }
}

/// The escape of one byte: `\t`, `\r`, `\n`, `\\`, `\'` and `\"` for those
/// characters, the character itself for other printable ASCII, and `\xNN`
/// with two lower-case hexadecimal digits for everything else.
pub open spec fn escape_byte(b: u8) -> Seq<char> {
    if b == 9 {
        seq!['\\', 't']
    } else if b == 13 {
        seq!['\\', 'r']
    } else if b == 10 {
        seq!['\\', 'n']
    } else if b == 92 {
        seq!['\\', '\\']
    } else if b == 39 {
        seq!['\\', '\'']
    } else if b == 34 {
        seq!['\\', '"']
    } else if 32 <= b && b <= 126 {
        seq![b as char]
    } else {
        seq!['\\', 'x', lower_digit_char(b as nat / 16), lower_digit_char(b as nat % 16)]
    }
}

/// The escapes of all bytes, in order.
pub open spec fn escaped(bs: Seq<u8>) -> Seq<char>
    decreases bs.len(),
{
    if bs.len() == 0 {
        Seq::empty()
    } else {
        escaped(bs.drop_last()) + escape_byte(bs.last())
    }
}

/// A byte string in double quotes, each byte escaped.
pub open spec fn quoted(bs: Seq<u8>) -> Seq<char> {
    seq!['"'] + escaped(bs) + seq!['"']
}

fn lower_digit(d: u8) -> (c: char)
    requires
        d < 16,
    ensures
        c == lower_digit_char(d as nat),
{
    if d < 10 {
        (d + 48) as char
    } else {
        (d + 87) as char
    }
}

pub fn push_escaped_byte(s: &mut String, b: u8)
    ensures
        final(s)@ == old(s)@ + escape_byte(b),
{
    if b == 9 {
        push_char(s, '\\');
        push_char(s, 't');
    } else if b == 13 {
        push_char(s, '\\');
        push_char(s, 'r');
    } else if b == 10 {
        push_char(s, '\\');
        push_char(s, 'n');
    } else if b == 92 {
        push_char(s, '\\');
        push_char(s, '\\');
    } else if b == 39 {
        push_char(s, '\\');
        push_char(s, '\'');
    } else if b == 34 {
        push_char(s, '\\');
        push_char(s, '"');
    } else if 32 <= b && b <= 126 {
        push_char(s, b as char);
    } else {
        push_char(s, '\\');
        push_char(s, 'x');
        push_char(s, lower_digit(b / 16));
        push_char(s, lower_digit(b % 16));
    }
    assert(final(s)@ =~= old(s)@ + escape_byte(b));
}

/// Appends `bs` as a quoted, escaped byte string.
pub fn push_quoted(s: &mut String, bs: &[u8])
    ensures
        final(s)@ == old(s)@ + quoted(bs@),
{
    let ghost start = s@;
    push_char(s, '"');
    let mut i: usize = 0;
    while i < bs.len()
        invariant
            i <= bs@.len(),
            s@ == start + seq!['"'] + escaped(bs@.subrange(0, i as int)),
        decreases bs@.len() - i,
    {
        push_escaped_byte(s, bs[i]);
        proof {
            let next = bs@.subrange(0, i + 1);
            assert(next.drop_last() =~= bs@.subrange(0, i as int));
            assert(next.last() == bs@[i as int]);
        }
        i += 1;
    }
    push_char(s, '"');
    assert(bs@.subrange(0, bs@.len() as int) =~= bs@);
    assert(s@ =~= start + quoted(bs@));
}

} // verus!

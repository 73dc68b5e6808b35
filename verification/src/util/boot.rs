//! Plain-text output of numbers, and where the console sits.

use vstd::prelude::*;
use vstd::string::StringExecFns;

verus! {

/// The hexadecimal digit for a value below sixteen, in lower case.
pub open spec fn hex_digit(d: int) -> char {
    if d < 10 {
        ((48 + d) as u8) as char
    } else {
        ((87 + d) as u8) as char
    }
}

/// The hexadecimal digits of `v`, most significant first, without leading
/// zeros; zero is the single digit `0`.
pub open spec fn hex_digits(v: nat) -> Seq<char>
    decreases v,
{
    if v < 16 {
        seq![hex_digit(v as int)]
    } else {
        hex_digits(v / 16).push(hex_digit((v % 16) as int))
    }
}

/// `v` as it is printed: `0x` and its hexadecimal digits.
pub open spec fn hex_text(v: nat) -> Seq<char> {
    seq!['0', 'x'] + hex_digits(v)
}

/// `n` blanks; none where `n` is not positive.
pub open spec fn blanks(n: int) -> Seq<char> {
    Seq::new(
        if n > 0 {
            n as nat
        } else {
            0
        },
        |i: int| ' ',
    )
}

/// The decimal digits of `n`, most significant first.
pub open spec fn decimal_digits(n: nat) -> Seq<char>
    decreases n,
{
    if n < 10 {
        seq![((48 + n) as u8) as char]
    } else {
        decimal_digits(n / 10).push(((48 + n % 10) as u8) as char)
    }
}

/// `String::push` puts one character at the end of the string.
#[verifier::external_body]
pub(crate) fn push_char(s: &mut String, c: char)
    ensures
        final(s)@ == old(s)@.push(c),
{
    s.push(c);
}

/// The digit for the low four bits of `v`.
fn low_digit(v: u64) -> (c: char)
    ensures
        c == hex_digit((v % 16) as int),
{
    let digit: u64 = v % 16;
    if digit < 10 {
        (48u8 + digit as u8) as char
    } else {
        (87u8 + digit as u8) as char
    }
}

/// Appends the hexadecimal digits of `v`.
fn write_hex_digits(w: &mut String, v: u64)
    ensures
        final(w)@ == old(w)@ + hex_digits(v as nat),
    decreases v,
{
    if v >= 16 {
        write_hex_digits(w, v / 16);
    }
    push_char(w, low_digit(v));
}

/// Appends `v` in hexadecimal, with the prefix `0x` and without leading
/// zeros.
pub fn boot_debug_hex(w: &mut String, v: u64)
    ensures
        final(w)@ == old(w)@ + hex_text(v as nat),
{
    proof {
        reveal_strlit("0x");
    }
    w.append("0x");
    assert("0x"@ == seq!['0', 'x']);
    write_hex_digits(w, v);
}

/// Appends `count` blanks.
pub fn write_blanks(w: &mut String, count: usize)
    ensures
        final(w)@ == old(w)@ + blanks(count as int),
{
    let mut written: usize = 0;
    assert(old(w)@ + blanks(0) == old(w)@);
    while written < count
        invariant
            written <= count,
            w@ == old(w)@ + blanks(written as int),
        decreases count - written,
    {
        w.append(" ");
        proof {
            reveal_strlit(" ");
            assert(" "@ == seq![' ']);
            assert(blanks(written as int) + seq![' '] == blanks(written + 1));
        }
        written += 1;
    }
}

/// Appends `n` in decimal.
pub fn write_decimal(w: &mut String, n: usize)
    ensures
        final(w)@ == old(w)@ + decimal_digits(n as nat),
    decreases n,
{
    if n >= 10 {
        write_decimal(w, n / 10);
    }
    push_char(w, (48u8 + (n % 10) as u8) as char);
}

/// The register window of the console.
#[derive(Clone, Copy, Debug, PartialEq, Eq, Structural)]
pub struct StdoutReg {
    /// The physical address of the first register.
    pub reg: usize,
    /// The size of the window in bytes.
    pub size: usize,
}

/// The console's window, from the first entry of the `reg` property of the
/// console's node: its address, and its size where the entry gives one.
/// An entry without a size stands for an empty window, and an address that
/// no pointer can hold for no window at all.
pub fn stdout_reg(address: u64, size: Option<usize>) -> (r: Option<StdoutReg>)
    ensures
        r == (if address <= usize::MAX {
            Some(
                StdoutReg {
                    reg: address as usize,
                    size: match size {
                        Some(s) => s,
                        None => 0,
                    },
                },
            )
        } else {
            None
        }),
{
    if address > usize::MAX as u64 {
        return None;
    }
    let size = match size {
        Some(s) => s,
        None => 0,
    };
    Some(StdoutReg { reg: address as usize, size })
}

} // verus!

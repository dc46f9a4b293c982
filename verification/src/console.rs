//! The formatted writer: text goes to the console one character at a time,
//! in order.

use vstd::prelude::*;
use vstd::string::StrSliceExecFns;
use crate::text::{decimal, hex, push_decimal, push_hex_digits};

verus! {

/// The console as the writer sees it: every character handed to the output
/// device so far, oldest first. Nothing is ever taken back or reordered.
pub struct Stdout {
    sent: Vec<char>,
}

impl View for Stdout {
    type V = Seq<char>;

    closed spec fn view(&self) -> Seq<char> {
        self.sent@
    }
}

impl Stdout {
    /// A console to which nothing has been written.
    pub fn new() -> (out: Stdout)
        ensures
            out@ == Seq::<char>::empty(),
    {
        Stdout { sent: Vec::new() }
    }

    /// Everything written so far.
    pub fn sent(&self) -> (chars: &Vec<char>)
        ensures
            chars@ == self@,
    {
        &self.sent
    }

    /// Hands over everything written so far and starts again from nothing.
    pub fn take(&mut self) -> (chars: Vec<char>)
        ensures
            chars@ == old(self)@,
            final(self)@ == Seq::<char>::empty(),
    {
        let mut chars: Vec<char> = Vec::new();
        std::mem::swap(&mut self.sent, &mut chars);
        chars
    }

    /// Transmits one character.
    pub fn emit_char(&mut self, c: char)
        ensures
            final(self)@ == old(self)@.push(c),
    {
        self.sent.push(c);
    }

    /// Transmits the characters of `s` from left to right.
    pub fn write_str(&mut self, s: &str)
        ensures
            final(self)@ == old(self)@ + s@,
    {
        let n: usize = s.unicode_len();
        let mut i: usize = 0;
        while i < n
            invariant
                n == s@.len(),
                i <= n,
                self@ == old(self)@ + s@.subrange(0, i as int),
            decreases n - i,
        {
            let c: char = s.get_char(i);
            self.emit_char(c);
            proof {
                assert(s@.subrange(0, i + 1) =~= s@.subrange(0, i as int).push(c));
                assert(self@ =~= old(self)@ + s@.subrange(0, i + 1));
            }
            i += 1;
        }
        proof {
            assert(s@.subrange(0, n as int) =~= s@);
        }
    }

    /// Transmits `n` in decimal.
    pub fn write_decimal(&mut self, n: u64)
        ensures
            final(self)@ == old(self)@ + decimal(n as nat),
    {
        push_decimal(&mut self.sent, n);
    }

    /// Transmits `n` in hexadecimal, with the prefix `0x`.
    pub fn write_hex(&mut self, n: u64)
        ensures
            final(self)@ == old(self)@ + hex(n as nat),
    {
        self.emit_char('0');
        self.emit_char('x');
        push_hex_digits(&mut self.sent, n);
        proof {
            assert(self@ =~= old(self)@ + hex(n as nat));
        }
    }
}

/// Writes `text` to the console.
pub fn print(out: &mut Stdout, text: &str)
    ensures
        final(out)@ == old(out)@ + text@,
{
    out.write_str(text);
}

/// Writes `text` and a line feed to the console.
pub fn println(out: &mut Stdout, text: &str)
    ensures
        final(out)@ == old(out)@ + text@ + seq!['\n'],
{
    out.write_str(text);
    out.emit_char('\n');
    proof {
        assert(out@ =~= old(out)@ + text@ + seq!['\n']);
    }
}

} // verus!

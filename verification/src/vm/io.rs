//! The handlers that read the input and write the output, and what the
//! embedder does with the two.

use crate::error::Error;
use crate::vm::mem::Width;
use crate::vm::num::{from_signed, signed};
use crate::vm::state::State;
use crate::vm::text::{
    line_end, next_token, parse_int_in, push_char, push_decimal, signed_decimal, skip_space,
    skip_token, token_consumed, token_end, token_start,
};
use crate::vm::R0Vm;
use vstd::prelude::*;

verus! {

impl<'src> R0Vm<'src> {
    /// Adds bytes to the end of the input.
    pub fn feed_input(&mut self, bytes: &Vec<u8>)
        requires
            old(self).wf(),
        ensures
            final(self).wf(),
            final(self)@ == (State { input: old(self)@.input + bytes@, ..old(self)@ }),
    {
        if self.stdin_pos == self.stdin.len() {
            // All that was fed has been read: start the buffer afresh.
            self.stdin.clear();
            self.stdin_pos = 0;
            assert(self@.input =~= old(self)@.input);
        }
        let mut i: usize = 0;
        while i < bytes.len()
            invariant
                self.wf(),
                i <= bytes.len(),
                self@ == (State { input: old(self)@.input + bytes@.take(i as int), ..old(self)@ }),
            decreases bytes.len() - i,
        {
            let ghost before = self.stdin@;
            self.stdin.push(bytes[i]);
            assert(self.stdin@.skip(self.stdin_pos as int) =~= before.skip(
                self.stdin_pos as int,
            ).push(bytes[i as int]));
            assert(bytes@.take(i + 1) =~= bytes@.take(i as int).push(bytes[i as int]));
            i += 1;
            assert(self@.input =~= old(self)@.input + bytes@.take(i as int));
        }
        assert(bytes@.take(i as int) == bytes@);
    }

    /// Whether the input holds a whole token: one with a byte of white
    /// space behind it. The embedder feeds input up to there before an
    /// instruction reads a token.
    pub fn token_ready(&self) -> (r: bool)
        requires
            self.wf(),
        ensures
            r == (token_end(self@.input) < self@.input.len()),
    {
        let start = skip_space(&self.stdin, self.stdin_pos);
        assert(self.stdin@.skip(self.stdin_pos as int).skip(start - self.stdin_pos)
            == self.stdin@.skip(start as int));
        let end = skip_token(&self.stdin, start);
        end < self.stdin.len()
    }

    /// The number of bytes of input that have not been read.
    pub fn input_left(&self) -> (r: usize)
        requires
            self.wf(),
        ensures
            r == self@.input.len(),
    {
        self.stdin.len() - self.stdin_pos
    }

    /// Hands over the output written so far, and starts afresh.
    pub fn take_output(&mut self) -> (r: Vec<u8>)
        requires
            old(self).wf(),
        ensures
            final(self).wf(),
            r@ == old(self)@.output,
            final(self)@ == (State { output: Seq::empty(), ..old(self)@ }),
    {
        let mut out = Vec::new();
        core::mem::swap(&mut out, &mut self.stdout);
        out
    }

    /// Adds bytes to the end of the output: the text of a double that the
    /// embedder has printed.
    pub fn write_output(&mut self, bytes: &Vec<u8>)
        requires
            old(self).wf(),
        ensures
            final(self).wf(),
            final(self)@ == old(self)@.emit(bytes@),
    {
        let mut i: usize = 0;
        while i < bytes.len()
            invariant
                self.wf(),
                i <= bytes.len(),
                self@ == old(self)@.emit(bytes@.take(i as int)),
            decreases bytes.len() - i,
        {
            self.stdout.push(bytes[i]);
            i += 1;
            assert(self@.output =~= old(self)@.output + bytes@.take(i as int));
        }
        assert(bytes@.take(i as int) == bytes@);
    }

    /// Takes the next token off the input: the bytes behind the leading
    /// white space, up to the next white space or the end of the input. The
    /// white space in front and the one byte that ends the token are used
    /// up with it. The token is empty where the input holds none.
    pub fn read_token(&mut self) -> (r: Vec<u8>)
        requires
            old(self).wf(),
        ensures
            final(self).wf(),
            final(self)@ == old(self)@.read_token().0,
            r@ == old(self)@.read_token().1,
    {
        let (start, end) = self.take_token();
        let mut tok = Vec::new();
        let mut i = start;
        while i < end
            invariant
                start <= i <= end <= self.stdin.len(),
                tok@ == self.stdin@.subrange(start as int, i as int),
            decreases end - i,
        {
            tok.push(self.stdin[i]);
            i += 1;
        }
        tok
    }

    /// Uses up the next token of the input and says where in the buffer it
    /// stands.
    fn take_token(&mut self) -> (r: (usize, usize))
        requires
            old(self).wf(),
        ensures
            final(self).wf(),
            final(self)@ == old(self)@.read_token().0,
            final(self).stdin == old(self).stdin,
            r.0 <= r.1 <= final(self).stdin.len(),
            final(self).stdin@.subrange(r.0 as int, r.1 as int) == old(self)@.read_token().1,
    {
        let ghost input = self@.input;
        let pos = self.stdin_pos;
        let start = skip_space(&self.stdin, pos);
        assert(self.stdin@.skip(pos as int).skip(start - pos) == self.stdin@.skip(start as int));
        let end = skip_token(&self.stdin, start);
        assert(end - pos == token_end(input));
        assert(start - pos == token_start(input));
        assert(self.stdin@.subrange(start as int, end as int) == next_token(input));
        if end < self.stdin.len() {
            self.stdin_pos = end + 1;
        } else {
            self.stdin_pos = end;
        }
        assert(self@.input == input.skip(token_consumed(input) as int));
        (start, end)
    }

    /// Takes one byte off the input and pushes it; an input that has run
    /// out gives `IoError`.
    pub fn scan_c(&mut self) -> (r: Result<(), Error>)
        requires
            old(self).wf(),
        ensures
            final(self).wf(),
            final(self)@ == old(self)@.scan_c().0,
            r == old(self)@.scan_c().1,
    {
        if self.stdin_pos >= self.stdin.len() {
            return Err(Error::IoError);
        }
        let ch = self.stdin[self.stdin_pos];
        self.stdin_pos = self.stdin_pos + 1;
        assert(self@.input == old(self)@.input.skip(1));
        self.push(ch as u64)
    }

    /// Takes a token off the input and pushes the signed integer that it
    /// writes in decimal; a token that writes none, the empty one of an
    /// input that has run out among them, gives `ParseError`.
    pub fn scan_i(&mut self) -> (r: Result<(), Error>)
        requires
            old(self).wf(),
        ensures
            final(self).wf(),
            final(self)@ == old(self)@.scan_i().0,
            r == old(self)@.scan_i().1,
    {
        let (start, end) = self.take_token();
        match parse_int_in(&self.stdin, start, end) {
            Some(val) => self.push(from_signed(val)),
            None => Err(Error::ParseError),
        }
    }

    /// Pops a slot and writes it as a signed integer in decimal.
    pub fn print_i(&mut self) -> (r: Result<(), Error>)
        requires
            old(self).wf(),
        ensures
            final(self).wf(),
            final(self)@ == old(self)@.print_i().0,
            r == old(self)@.print_i().1,
    {
        let i = self.pop()?;
        if i >= 0x8000_0000_0000_0000 {
            self.stdout.push(45);
            push_decimal(&mut self.stdout, (u64::MAX - i) + 1);
            assert(self.stdout@ =~= old(self).stdout@ + signed_decimal(signed(i)));
        } else {
            push_decimal(&mut self.stdout, i);
        }
        Ok(())
    }

    /// Pops a slot and writes the character whose code is its low byte.
    pub fn print_c(&mut self) -> (r: Result<(), Error>)
        requires
            old(self).wf(),
        ensures
            final(self).wf(),
            final(self)@ == old(self)@.print_c().0,
            r == old(self)@.print_c().1,
    {
        let i = self.pop()?;
        push_char(&mut self.stdout, (i % 256) as u8);
        Ok(())
    }

    /// Pops an address, then a length, and writes that many bytes of memory
    /// from the address on. The first byte that cannot be read ends the
    /// writing with the refusal of its load.
    pub fn print_s(&mut self) -> (r: Result<(), Error>)
        requires
            old(self).wf(),
        ensures
            final(self).wf(),
            final(self)@ == old(self)@.print_s().0,
            r == old(self)@.print_s().1,
    {
        let addr = self.pop()?;
        let len = self.pop()?;
        let ghost goal = old(self)@.print_s();
        let mut i: u64 = 0;
        while i < len
            invariant
                self.wf(),
                i <= len,
                goal == old(self)@.print_s(),
                goal == self@.print_bytes(addr, len, i),
            decreases len - i,
        {
            let ghost before = self@;
            let val = self.access_mem_get(addr.wrapping_add(i), Width::W8)?;
            self.stdout.push(
                #[verifier::truncate]
                (val as u8),
            );
            assert(self@.output =~= before.output + seq![val as u8]);
            i += 1;
        }
        Ok(())
    }

    /// Writes the end of a line: a carriage return and a line feed.
    pub fn print_ln(&mut self) -> (r: Result<(), Error>)
        requires
            old(self).wf(),
        ensures
            final(self).wf(),
            final(self)@ == old(self)@.print_ln().0,
            r == old(self)@.print_ln().1,
    {
        self.stdout.push(13);
        self.stdout.push(10);
        assert(self.stdout@ =~= old(self).stdout@ + line_end());
        Ok(())
    }
}

} // verus!

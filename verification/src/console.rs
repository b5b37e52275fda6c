//! The console the CPU's two I/O ports talk to: a byte input buffer drained
//! monotonically, an output sink, and a log mirroring the output for
//! inspection. Reading past the end of the input is permitted and hands back
//! a zero byte.

use vstd::prelude::*;
use crate::text::push_char;

verus! {

/// Mathematical model of a [`Console`].
#[verifier::ext_equal]
pub struct ConsoleModel {
    pub input: Seq<u8>,
    pub pos: int,
    pub writer: Seq<char>,
    pub log: Seq<char>,
}

impl ConsoleModel {
    /// The read position never passes the end of the input buffer.
    pub open spec fn wf(self) -> bool {
        0 <= self.pos <= self.input.len()
    }

    /// The byte the next read hands back: the next buffered byte, or zero
    /// once the buffer is drained.
    pub open spec fn read_val(self) -> u8 {
        if self.pos < self.input.len() {
            self.input[self.pos]
        } else {
            0
        }
    }

    /// The console after one read: the position advances unless the buffer
    /// is already drained.
    pub open spec fn read_state(self) -> ConsoleModel {
        if self.pos < self.input.len() {
            ConsoleModel { pos: self.pos + 1, ..self }
        } else {
            self
        }
    }

    /// The console after writing one byte: carriage returns are swallowed;
    /// any other byte is appended to the output and mirrored to the log.
    pub open spec fn write_state(self, v: u8) -> ConsoleModel {
        if v == 13 {
            self
        } else {
            ConsoleModel { writer: self.writer.push(v as char), log: self.log.push(v as char), ..self }
        }
    }

    /// One when at least one byte is still buffered, zero otherwise.
    pub open spec fn avail(self) -> u16 {
        if self.pos < self.input.len() {
            1
        } else {
            0
        }
    }
}

/// The I/O console for the CPU: an input buffer with a read position, an
/// output sink, and a log of everything written.
#[derive(Clone, Debug)]
pub struct Console {
    pub input: Vec<u8>,
    pub pos: usize,
    pub writer: Vec<char>,
    pub log: Vec<char>,
}

impl View for Console {
    type V = ConsoleModel;

    open spec fn view(&self) -> ConsoleModel {
        ConsoleModel {
            input: self.input@,
            pos: self.pos as int,
            writer: self.writer@,
            log: self.log@,
        }
    }
}

impl Console {
    /// A console with nothing buffered, nothing written and nothing logged.
    pub fn new() -> (r: Console)
        ensures
            r@.wf(),
            r@.input == Seq::<u8>::empty(),
            r@.pos == 0,
            r@.writer == Seq::<char>::empty(),
            r@.log == Seq::<char>::empty(),
    {
        Console { input: Vec::new(), pos: 0, writer: Vec::new(), log: Vec::new() }
    }

    /// Write one byte to the output, mirroring it to the log; carriage
    /// returns are swallowed.
    pub fn write_char(&mut self, v: u8)
        requires
            old(self)@.wf(),
        ensures
            final(self)@ =~= old(self)@.write_state(v),
            final(self)@.wf(),
    {
        if v != 13 {
            self.log.push(v as char);
            self.writer.push(v as char);
        }
    }

    /// Consume and hand back the next input byte, or zero once the buffer is
    /// drained.
    pub fn read_byte(&mut self) -> (r: u8)
        requires
            old(self)@.wf(),
        ensures
            r == old(self)@.read_val(),
            final(self)@ =~= old(self)@.read_state(),
            final(self)@.wf(),
    {
        if self.pos < self.input.len() {
            let b = self.input[self.pos];
            self.pos = self.pos + 1;
            b
        } else {
            0
        }
    }

    /// The next input byte as a character; zero once the buffer is drained.
    pub fn read_char(&mut self) -> (r: char)
        requires
            old(self)@.wf(),
        ensures
            r == old(self)@.read_val() as char,
            final(self)@ =~= old(self)@.read_state(),
            final(self)@.wf(),
    {
        let b = self.read_byte();
        b as char
    }

    /// Replace the input buffer with the given bytes, which are drained from
    /// the argument, and rewind the read position.
    pub fn load(&mut self, xs: &mut Vec<u8>)
        ensures
            final(self)@.input == old(xs)@,
            final(self)@.pos == 0,
            final(self)@.writer == old(self)@.writer,
            final(self)@.log == old(self)@.log,
            final(xs)@ == Seq::<u8>::empty(),
            final(self)@.wf(),
    {
        self.input.clear();
        self.input.append(xs);
        self.pos = 0;
    }

    /// Everything ever logged, as a string.
    pub fn get_log(&self) -> (r: String)
        ensures
            r@ == self@.log,
    {
        chars_to_string(&self.log)
    }

    /// Everything in the output sink, as a string.
    pub fn get_writer(&self) -> (r: String)
        ensures
            r@ == self@.writer,
    {
        chars_to_string(&self.writer)
    }
}

/// The characters of `cs`, joined into a string.
fn chars_to_string(cs: &Vec<char>) -> (r: String)
    ensures
        r@ == cs@,
{
    let mut r = String::new();
    let mut i: usize = 0;
    while i < cs.len()
        invariant
            0 <= i <= cs@.len(),
            r@ =~= cs@.subrange(0, i as int),
        decreases cs@.len() - i,
    {
        push_char(&mut r, cs[i]);
        i = i + 1;
    }
    proof {
        assert(r@ =~= cs@);
    }
    r
}

} // verus!

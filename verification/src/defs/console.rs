//! The console as the machine sees it: bytes waiting to be read, and
//! characters written so far.
//!
//! The machine never touches a terminal. A host fills `input` with the bytes
//! it has read and drains `output` to the screen; a test fills `input` with a
//! script and inspects `output` afterwards.

use vstd::prelude::*;
use std::collections::VecDeque;

verus! {

/// The two console buffers.
pub struct Console {
    /// Bytes that the program has not read yet, oldest first.
    pub input: VecDeque<u8>,
    /// Character codes that the program has written, oldest first.
    pub output: Vec<u16>,
}

impl Console {
    /// A console with nothing to read and nothing written.
    pub fn new() -> (console: Console)
        ensures
            console.input@ == Seq::<u8>::empty(),
            console.output@ == Seq::<u16>::empty(),
    {
        Console { input: VecDeque::new(), output: Vec::new() }
    }

    /// Appends `byte` to the input that waits to be read.
    pub fn feed(&mut self, byte: u8)
        ensures
            final(self).input@ == old(self).input@.push(byte),
            final(self).output@ == old(self).output@,
    {
        self.input.push_back(byte);
    }

    /// Whether a read would find a byte.
    pub fn has_input(&self) -> (b: bool)
        ensures
            b == (self.input@.len() > 0),
    {
        self.input.len() > 0
    }

    /// Takes the oldest waiting byte, or `None` when the input is exhausted.
    pub fn read_byte(&mut self) -> (byte: Option<u8>)
        ensures
            final(self).output@ == old(self).output@,
            old(self).input@.len() == 0 ==> byte.is_none() && final(self).input@ == old(
                self,
            ).input@,
            old(self).input@.len() > 0 ==> byte == Some(old(self).input@[0]) && final(self).input@
                == old(self).input@.skip(1),
    {
        self.input.pop_front()
    }

    /// Appends the character code `code` to the output.
    pub fn write_char(&mut self, code: u16)
        ensures
            final(self).input@ == old(self).input@,
            final(self).output@ == old(self).output@.push(code),
    {
        self.output.push(code);
    }

    /// Hands over everything written so far and leaves the output empty.
    pub fn take_output(&mut self) -> (written: Vec<u16>)
        ensures
            written@ == old(self).output@,
            final(self).output@ == Seq::<u16>::empty(),
            final(self).input@ == old(self).input@,
    {
        let mut written: Vec<u16> = Vec::new();
        std::mem::swap(&mut written, &mut self.output);
        written
    }
}

} // verus!

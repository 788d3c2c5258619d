//! The "paper tape": a line-buffered byte source with a cursor.
//!
//! The tape holds at most one buffered line at a time; reading past its end
//! asks the surrounding program for a fresh line, which replaces (never
//! extends) the buffer.

use vstd::prelude::*;

verus! {

/// Mathematical view of a tape: the buffered line and the cursor into it.
pub ghost struct TapeModel {
    pub buf: Seq<u8>,
    pub head: nat,
}

impl TapeModel {
    /// The cursor never passes the end of the buffered line.
    pub open spec fn wf(self) -> bool {
        self.head <= self.buf.len()
    }

    /// Every byte of the buffered line has been consumed.
    pub open spec fn exhausted(self) -> bool {
        self.head == self.buf.len()
    }
}

/// A line-buffered byte source: one buffered line plus a cursor (`head`).
pub struct Tape {
    buf: Vec<u8>,
    head: usize,
}

impl View for Tape {
    type V = TapeModel;

    closed spec fn view(&self) -> TapeModel {
        TapeModel { buf: self.buf@, head: self.head as nat }
    }
}

impl Tape {
    /// A fresh tape starts empty, hence exhausted: the first read asks for a line.
    pub fn new() -> (t: Tape)
        ensures
            t@ == (TapeModel { buf: Seq::<u8>::empty(), head: 0 }),
            t@.wf(),
    {
        Tape { buf: Vec::new(), head: 0 }
    }

    /// True when no byte is left in the buffered line.
    pub fn exhausted(&self) -> (r: bool)
        ensures
            r == self@.exhausted(),
    {
        self.head == self.buf.len()
    }

    /// Replace the buffered line with a newly acquired one and rewind the cursor.
    pub fn refill(&mut self, line: Vec<u8>)
        ensures
            final(self)@ == (TapeModel { buf: line@, head: 0 }),
            final(self)@.wf(),
    {
        self.buf = line;
        self.head = 0;
    }

    /// Read the byte under the cursor and advance, or report exhaustion
    /// without touching anything.
    pub fn next_byte(&mut self) -> (r: Option<u8>)
        requires
            old(self)@.wf(),
        ensures
            final(self)@.wf(),
            old(self)@.exhausted() ==> r is None && final(self)@ == old(self)@,
            !old(self)@.exhausted() ==> {
                &&& r == Some(old(self)@.buf[old(self)@.head as int])
                &&& final(self)@.buf == old(self)@.buf
                &&& final(self)@.head == old(self)@.head + 1
            },
    {
        if self.head == self.buf.len() {
            None
        } else {
            let b: u8 = self.buf[self.head];
            self.head = self.head + 1;
            Some(b)
        }
    }
}

} // verus!

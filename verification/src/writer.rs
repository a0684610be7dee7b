//! The capture buffer for one sandboxed run's output stream.
//!
//! Each run owns two of these, one for standard output and one for
//! standard error; nothing else ever writes into them, so two runs can
//! never observe each other's captured bytes.

use vstd::prelude::*;

verus! {

/// An in-memory sink that records every byte written to it, in order.
pub struct Writer {
    data: Vec<u8>,
}

impl View for Writer {
    type V = Seq<u8>;

    closed spec fn view(&self) -> Seq<u8> {
        self.data@
    }
}

impl Writer {
    /// A fresh, empty capture buffer.
    pub fn new() -> (w: Writer)
        ensures
            w@ == Seq::<u8>::empty(),
    {
        Writer { data: Vec::new() }
    }

    /// Append a whole buffer; every byte is accepted.
    pub fn write(&mut self, buf: &[u8]) -> (n: usize)
        ensures
            final(self)@ == old(self)@ + buf@,
            n == buf@.len(),
    {
        let mut i: usize = 0;
        while i < buf.len()
            invariant
                0 <= i <= buf@.len(),
                self@ == old(self)@ + buf@.subrange(0, i as int),
            decreases buf@.len() - i,
        {
            self.data.push(buf[i]);
            proof {
                assert(buf@.subrange(0, i as int + 1) =~= buf@.subrange(0, i as int).push(
                    buf@[i as int],
                ));
                assert(old(self)@ + buf@.subrange(0, i as int + 1) =~= (old(self)@ + buf@.subrange(
                    0,
                    i as int,
                )).push(buf@[i as int]));
            }
            i += 1;
        }
        proof {
            assert(buf@.subrange(0, buf@.len() as int) =~= buf@);
        }
        buf.len()
    }

    /// Flushing an in-memory buffer changes nothing.
    pub fn flush(&mut self)
        ensures
            final(self)@ == old(self)@,
    {
    }

    /// The number of captured bytes.
    pub fn len(&self) -> (n: usize)
        ensures
            n == self@.len(),
    {
        self.data.len()
    }

    /// Hand the captured bytes out, consuming the buffer.
    pub fn into_bytes(self) -> (v: Vec<u8>)
        ensures
            v@ == self@,
    {
        self.data
    }

    /// Read the captured bytes.
    pub fn as_bytes(&self) -> (v: &Vec<u8>)
        ensures
            v@ == self@,
    {
        &self.data
    }
}

} // verus!

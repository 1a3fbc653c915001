//! Fixed-capacity window of received bytes that the parser has not consumed.
use vstd::prelude::*;

verus! {

/// Most bytes the window holds before a new byte is refused.
pub const BUFFER_CAPACITY: usize = 512;

pub struct Buffer {
    bytes: Vec<u8>,
}

impl Buffer {
    pub closed spec fn view(&self) -> Seq<u8> {
        self.bytes@
    }

    pub open spec fn wf(&self) -> bool {
        self@.len() <= BUFFER_CAPACITY
    }

    pub fn new() -> (b: Buffer)
        ensures
            b.wf(),
            b@ == Seq::<u8>::empty(),
    {
        Buffer { bytes: Vec::new() }
    }

    /// The unparsed bytes, oldest first.
    pub fn as_slice(&self) -> (s: &[u8])
        ensures
            s@ == self@,
    {
        self.bytes.as_slice()
    }

    /// Appends one byte; when the window is full the byte is handed back and
    /// nothing changes.
    pub fn write(&mut self, octet: u8) -> (r: Result<(), u8>)
        requires
            old(self).wf(),
        ensures
            final(self).wf(),
            old(self)@.len() < BUFFER_CAPACITY ==> r is Ok && final(self)@ == old(self)@.push(octet),
            old(self)@.len() >= BUFFER_CAPACITY ==> r == Err::<(), u8>(octet) && final(self)@ == old(self)@,
    {
        if self.bytes.len() < BUFFER_CAPACITY {
            self.bytes.push(octet);
            Ok(())
        } else {
            Err(octet)
        }
    }

    /// Removes the first `n` bytes.
    pub fn consume(&mut self, n: usize)
        requires
            old(self).wf(),
            n <= old(self)@.len(),
        ensures
            final(self).wf(),
            final(self)@ == old(self)@.skip(n as int),
    {
        let mut rest: Vec<u8> = Vec::new();
        let mut i: usize = n;
        while i < self.bytes.len()
            invariant
                n <= i <= self.bytes@.len(),
                self.bytes@ == old(self).bytes@,
                rest@ == self.bytes@.subrange(n as int, i as int),
            decreases self.bytes@.len() - i,
        {
            rest.push(self.bytes[i]);
            i = i + 1;
        }
        self.bytes = rest;
    }
}

} // verus!

use vstd::prelude::*;

use crate::EmuError;

verus! {

/// Sequential, forward-only reader over a byte source. All decoding reads go
/// through `next` or `maybe_next`; there is no random access and no
/// rewinding. The position doubles as the instruction pointer of the
/// simulated machine.
pub struct ByteStream {
    bytes: Vec<u8>,
    pos: usize,
}

impl ByteStream {
    /// The whole underlying byte source.
    pub closed spec fn data(self) -> Seq<u8> {
        self.bytes@
    }

    /// How many bytes have been consumed so far.
    pub closed spec fn pos(self) -> nat {
        self.pos as nat
    }

    pub open spec fn wf(self) -> bool {
        self.pos() <= self.data().len()
    }

    pub fn new(bytes: Vec<u8>) -> (r: Self)
        ensures
            r.wf(),
            r.data() == bytes@,
            r.pos() == 0,
    {
        ByteStream { bytes, pos: 0 }
    }

    /// The next byte, or `UnexpectedEndOfInput` if none remain.
    pub fn next(&mut self) -> (r: Result<u8, EmuError>)
        requires
            old(self).wf(),
        ensures
            final(self).wf(),
            final(self).data() == old(self).data(),
            if old(self).pos() < old(self).data().len() {
                r == Ok::<u8, EmuError>(old(self).data()[old(self).pos() as int])
                    && final(self).pos() == old(self).pos() + 1
            } else {
                r == Err::<u8, EmuError>(EmuError::UnexpectedEndOfInput) && final(self).pos()
                    == old(self).pos()
            },
    {
        if self.pos < self.bytes.len() {
            let b = self.bytes[self.pos];
            self.pos = self.pos + 1;
            Ok(b)
        } else {
            Err(EmuError::UnexpectedEndOfInput)
        }
    }

    /// The next byte, or `None` on clean end of stream. This is the one
    /// sanctioned way to detect that no more instructions follow.
    pub fn maybe_next(&mut self) -> (r: Option<u8>)
        requires
            old(self).wf(),
        ensures
            final(self).wf(),
            final(self).data() == old(self).data(),
            if old(self).pos() < old(self).data().len() {
                r == Some(old(self).data()[old(self).pos() as int]) && final(self).pos() == old(
                    self,
                ).pos() + 1
            } else {
                r == None::<u8> && final(self).pos() == old(self).pos()
            },
    {
        match self.next() {
            Ok(b) => Some(b),
            Err(_) => None,
        }
    }

    /// The current read offset, i.e. the instruction pointer value.
    pub fn get_iptr(&self) -> (r: u64)
        ensures
            r as nat == self.pos(),
    {
        self.pos as u64
    }
}

} // verus!

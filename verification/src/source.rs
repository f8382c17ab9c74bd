//! The byte-producing capability that the adaptors consume.

use vstd::prelude::*;

verus! {

/// A pull-based source of bytes, consumed at most once per element.
///
/// `remaining()` is the mathematical sequence of bytes the source has not
/// yet produced; `next` produces them front to back and signals exhaustion
/// with `None`, never by failure.
pub trait ByteSource: Sized {
    /// The bytes this source has yet to produce, in order.
    spec fn remaining(&self) -> Seq<u8>;

    /// Produces the next byte, or `None` exactly when the source is
    /// exhausted.
    fn next(&mut self) -> (r: Option<u8>)
        ensures
            match r {
                Some(b) => old(self).remaining().len() > 0
                    && b == old(self).remaining()[0]
                    && final(self).remaining() == old(self).remaining().skip(1),
                None => old(self).remaining().len() == 0
                    && final(self).remaining() == old(self).remaining(),
            },
    ;
}

/// A byte source that walks a vector front to back.
pub struct VecSource {
    bytes: Vec<u8>,
    pos: usize,
}

impl VecSource {
    /// Takes ownership of the bytes; the source will produce them in order.
    pub fn new(bytes: Vec<u8>) -> (s: Self)
        ensures
            s.remaining() == bytes@,
    {
        let s = VecSource { bytes, pos: 0 };
        proof {
            assert(s.remaining() =~= s.bytes@);
        }
        s
    }
}

impl ByteSource for VecSource {
    closed spec fn remaining(&self) -> Seq<u8> {
        if self.pos <= self.bytes.len() {
            self.bytes@.skip(self.pos as int)
        } else {
            Seq::empty()
        }
    }

    fn next(&mut self) -> (r: Option<u8>) {
        if self.pos < self.bytes.len() {
            let b = self.bytes[self.pos];
            self.pos = self.pos + 1;
            proof {
                assert(self.remaining() =~= old(self).remaining().skip(1));
            }
            Some(b)
        } else {
            None
        }
    }
}

} // verus!

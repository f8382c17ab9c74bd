//! The nibble adaptor: two 4-bit values per input byte, high nibble first.

use vstd::prelude::*;

use crate::source::ByteSource;

verus! {

/// The high (most significant) nibble of a byte.
pub open spec fn high_nibble(b: u8) -> u8 {
    (b >> 4) & 0xf
}

/// The low (least significant) nibble of a byte.
pub open spec fn low_nibble(b: u8) -> u8 {
    b & 0xf
}

/// The nibbles of a byte sequence: for each byte in order, its high nibble
/// then its low nibble.
pub open spec fn nibble_seq(bytes: Seq<u8>) -> Seq<u8>
    decreases bytes.len(),
{
    if bytes.len() == 0 {
        Seq::empty()
    } else {
        seq![high_nibble(bytes[0]), low_nibble(bytes[0])] + nibble_seq(bytes.skip(1))
    }
}

/// A lazy sequence of the nibbles of a byte source, produced one value per
/// `advance` call, high nibble before low nibble, in input order.
pub struct Nibbles<I: ByteSource> {
    source: I,
    pending: Option<u8>,
}

impl<I: ByteSource> Nibbles<I> {
    /// The single internal invariant: a cached low nibble is a nibble.
    pub closed spec fn wf(&self) -> bool {
        match self.pending {
            Some(n) => n < 16,
            None => true,
        }
    }

    /// The nibbles this adaptor has yet to produce: the cached low nibble,
    /// if one is pending, followed by the nibbles of the source's remaining
    /// bytes.
    pub closed spec fn remaining_nibbles(&self) -> Seq<u8> {
        match self.pending {
            Some(n) => seq![n] + nibble_seq(self.source.remaining()),
            None => nibble_seq(self.source.remaining()),
        }
    }

    /// Takes ownership of the source; no nibble is pending yet.
    pub fn from(source: I) -> (s: Self)
        ensures
            s.wf(),
            s.remaining_nibbles() == nibble_seq(source.remaining()),
    {
        Nibbles { source, pending: None }
    }

    /// Produces the next nibble, or `None` exactly when the source is
    /// exhausted and no nibble is pending.
    pub fn advance(&mut self) -> (r: Option<u8>)
        requires
            old(self).wf(),
        ensures
            final(self).wf(),
            match r {
                Some(n) => n < 16
                    && old(self).remaining_nibbles().len() > 0
                    && n == old(self).remaining_nibbles()[0]
                    && final(self).remaining_nibbles() == old(self).remaining_nibbles().skip(1),
                None => old(self).remaining_nibbles().len() == 0
                    && final(self).remaining_nibbles() == old(self).remaining_nibbles(),
            },
    {
        match self.pending {
            Some(n) => {
                self.pending = None;
                proof {
                    assert(self.remaining_nibbles() =~= old(self).remaining_nibbles().skip(1));
                }
                Some(n)
            },
            None => {
                match self.source.next() {
                    None => None,
                    Some(b) => {
                        let high = (b >> 4) & 0xf;
                        let low = b & 0xf;
                        self.pending = Some(low);
                        proof {
                            assert((b >> 4) & 0xf < 16 && b & 0xf < 16) by (bit_vector);
                            assert(self.remaining_nibbles()
                                =~= old(self).remaining_nibbles().skip(1));
                        }
                        Some(high)
                    },
                }
            },
        }
    }

    /// Drains the adaptor into a vector: the collected values are exactly
    /// the nibbles the adaptor had yet to produce, in order, and afterwards
    /// the adaptor is exhausted.
    pub fn collect_remaining(&mut self) -> (v: Vec<u8>)
        requires
            old(self).wf(),
        ensures
            final(self).wf(),
            v@ == old(self).remaining_nibbles(),
            final(self).remaining_nibbles().len() == 0,
    {
        let mut v: Vec<u8> = Vec::new();
        loop
            invariant
                self.wf(),
                v@ + self.remaining_nibbles() == old(self).remaining_nibbles(),
            ensures
                self.wf(),
                v@ + self.remaining_nibbles() == old(self).remaining_nibbles(),
                self.remaining_nibbles().len() == 0,
            decreases self.remaining_nibbles().len(),
        {
            match self.advance() {
                Some(n) => {
                    v.push(n);
                    proof {
                        assert(v@ + self.remaining_nibbles()
                            =~= old(self).remaining_nibbles());
                    }
                },
                None => {
                    break;
                },
            }
        }
        proof {
            assert(v@ =~= old(self).remaining_nibbles());
        }
        v
    }
}

} // verus!

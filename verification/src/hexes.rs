//! The hex-digit adaptor: two lowercase hex characters per input byte,
//! the high nibble's digit first.

use vstd::prelude::*;

use crate::nibbles::high_nibble;
use crate::nibbles::low_nibble;
use crate::source::ByteSource;

verus! {

/// The lowercase hex digit of a nibble: '0'-'9' for 0-9, 'a'-'f' for 10-15.
/// Nibbles are the values below 16; anything larger is mapped to '0'.
pub open spec fn hex_char_of(n: u8) -> char {
    if n == 0x0 {
        '0'
    } else if n == 0x1 {
        '1'
    } else if n == 0x2 {
        '2'
    } else if n == 0x3 {
        '3'
    } else if n == 0x4 {
        '4'
    } else if n == 0x5 {
        '5'
    } else if n == 0x6 {
        '6'
    } else if n == 0x7 {
        '7'
    } else if n == 0x8 {
        '8'
    } else if n == 0x9 {
        '9'
    } else if n == 0xa {
        'a'
    } else if n == 0xb {
        'b'
    } else if n == 0xc {
        'c'
    } else if n == 0xd {
        'd'
    } else if n == 0xe {
        'e'
    } else if n == 0xf {
        'f'
    } else {
        '0'
    }
}

/// Holds exactly of the sixteen lowercase hex digits.
pub open spec fn is_hex_digit(c: char) -> bool {
    exists|n: u8| n < 16 && c == hex_char_of(n)
}

/// The hex encoding of a byte sequence: for each byte in order, the digit of
/// its high nibble then the digit of its low nibble.
pub open spec fn hex_char_seq(bytes: Seq<u8>) -> Seq<char>
    decreases bytes.len(),
{
    if bytes.len() == 0 {
        Seq::empty()
    } else {
        seq![
            hex_char_of(high_nibble(bytes[0])),
            hex_char_of(low_nibble(bytes[0])),
        ] + hex_char_seq(bytes.skip(1))
    }
}

/// The fixed nibble-to-digit lookup, as a total function on nibble values.
pub fn nibble_to_hex_char(n: u8) -> (c: char)
    requires
        n < 16,
    ensures
        c == hex_char_of(n),
{
    match n {
        0x0 => '0',
        0x1 => '1',
        0x2 => '2',
        0x3 => '3',
        0x4 => '4',
        0x5 => '5',
        0x6 => '6',
        0x7 => '7',
        0x8 => '8',
        0x9 => '9',
        0xa => 'a',
        0xb => 'b',
        0xc => 'c',
        0xd => 'd',
        0xe => 'e',
        _ => 'f',
    }
}

/// A lazy sequence of the lowercase hex digits of a byte source, produced
/// one character per `advance` call, in input order, the high nibble's
/// digit before the low nibble's.
pub struct Hexes<I: ByteSource> {
    source: I,
    pending: Option<char>,
}

impl<I: ByteSource> Hexes<I> {
    /// The single internal invariant: a cached character is a hex digit.
    pub closed spec fn wf(&self) -> bool {
        match self.pending {
            Some(c) => is_hex_digit(c),
            None => true,
        }
    }

    /// The characters this adaptor has yet to produce: the cached low
    /// nibble's digit, if one is pending, followed by the hex encoding of
    /// the source's remaining bytes.
    pub closed spec fn remaining_chars(&self) -> Seq<char> {
        match self.pending {
            Some(c) => seq![c] + hex_char_seq(self.source.remaining()),
            None => hex_char_seq(self.source.remaining()),
        }
    }

    /// Takes ownership of the source; no character is pending yet.
    pub fn from(source: I) -> (s: Self)
        ensures
            s.wf(),
            s.remaining_chars() == hex_char_seq(source.remaining()),
    {
        Hexes { source, pending: None }
    }

    /// Produces the next hex digit, or `None` exactly when the source is
    /// exhausted and no digit is pending.
    pub fn advance(&mut self) -> (r: Option<char>)
        requires
            old(self).wf(),
        ensures
            final(self).wf(),
            match r {
                Some(c) => is_hex_digit(c)
                    && old(self).remaining_chars().len() > 0
                    && c == old(self).remaining_chars()[0]
                    && final(self).remaining_chars() == old(self).remaining_chars().skip(1),
                None => old(self).remaining_chars().len() == 0
                    && final(self).remaining_chars() == old(self).remaining_chars(),
            },
    {
        match self.pending {
            Some(c) => {
                self.pending = None;
                proof {
                    assert(self.remaining_chars() =~= old(self).remaining_chars().skip(1));
                }
                Some(c)
            },
            None => {
                match self.source.next() {
                    None => None,
                    Some(b) => {
                        let high = (b >> 4) & 0xf;
                        let low = b & 0xf;
                        proof {
                            assert((b >> 4) & 0xf < 16 && b & 0xf < 16) by (bit_vector);
                        }
                        let high_char = nibble_to_hex_char(high);
                        let low_char = nibble_to_hex_char(low);
                        self.pending = Some(low_char);
                        proof {
                            assert(self.remaining_chars()
                                =~= old(self).remaining_chars().skip(1));
                        }
                        Some(high_char)
                    },
                }
            },
        }
    }

    /// Drains the adaptor into a vector: the collected characters are
    /// exactly the hex digits the adaptor had yet to produce, in order, and
    /// afterwards the adaptor is exhausted.
    pub fn collect_remaining(&mut self) -> (v: Vec<char>)
        requires
            old(self).wf(),
        ensures
            final(self).wf(),
            v@ == old(self).remaining_chars(),
            final(self).remaining_chars().len() == 0,
    {
        let mut v: Vec<char> = Vec::new();
        loop
            invariant
                self.wf(),
                v@ + self.remaining_chars() == old(self).remaining_chars(),
            ensures
                self.wf(),
                v@ + self.remaining_chars() == old(self).remaining_chars(),
                self.remaining_chars().len() == 0,
            decreases self.remaining_chars().len(),
        {
            match self.advance() {
                Some(c) => {
                    v.push(c);
                    proof {
                        assert(v@ + self.remaining_chars() =~= old(self).remaining_chars());
                    }
                },
                None => {
                    break;
                },
            }
        }
        proof {
            assert(v@ =~= old(self).remaining_chars());
        }
        v
    }
}

} // verus!

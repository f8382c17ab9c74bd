//! Lazy hexadecimal views of a byte sequence.
//!
//! Given any byte-producing sequence, the adaptors in this crate produce,
//! one element at a time and without an intermediate buffer, either the
//! sequence of 4-bit nibble values (high nibble before low nibble, in input
//! order) or the sequence of the corresponding lowercase hex-digit
//! characters.

use vstd::prelude::*;

pub mod hexes;
pub mod laws;
pub mod nibbles;
pub mod source;

pub use hexes::Hexes;
pub use nibbles::Nibbles;
pub use source::ByteSource;
pub use source::VecSource;

use hexes::hex_char_seq;
use nibbles::nibble_seq;

verus! {

/// Wraps any byte-producing sequence into a lazy sequence of its lowercase
/// hex-digit characters, two per input byte, high nibble's digit first.
pub fn hexed<I: ByteSource>(source: I) -> (s: Hexes<I>)
    ensures
        s.wf(),
        s.remaining_chars() == hex_char_seq(source.remaining()),
{
    Hexes::from(source)
}

/// Wraps any byte-producing sequence into a lazy sequence of its nibble
/// values, two per input byte, high nibble first.
pub fn nibbles<I: ByteSource>(source: I) -> (s: Nibbles<I>)
    ensures
        s.wf(),
        s.remaining_nibbles() == nibble_seq(source.remaining()),
{
    Nibbles::from(source)
}

/// A blanket extension that lets every byte-producing sequence be turned
/// into its nibble or hex-digit adaptor by a method call.
pub trait HexIterator: ByteSource {
    /// Creates an adaptor over the nibbles of the original sequence
    /// (high-to-low order).
    fn nibbles(self) -> (s: Nibbles<Self>)
        ensures
            s.wf(),
            s.remaining_nibbles() == nibble_seq(self.remaining()),
    ;

    /// Creates an adaptor over the lowercase hex-digit characters of the
    /// original sequence.
    fn hexed(self) -> (s: Hexes<Self>)
        ensures
            s.wf(),
            s.remaining_chars() == hex_char_seq(self.remaining()),
    ;
}

impl<T: ByteSource> HexIterator for T {
    fn nibbles(self) -> (s: Nibbles<T>) {
        Nibbles::from(self)
    }

    fn hexed(self) -> (s: Hexes<T>) {
        Hexes::from(self)
    }
}

} // verus!

//! The general properties of the two encodings, stated and proved once for
//! every byte sequence.

use vstd::prelude::*;

use crate::hexes::hex_char_of;
use crate::hexes::hex_char_seq;
use crate::hexes::is_hex_digit;
use crate::nibbles::high_nibble;
use crate::nibbles::low_nibble;
use crate::nibbles::nibble_seq;

verus! {

/// The value a lowercase hex digit stands for; other characters stand for 0.
pub open spec fn nibble_of_char(c: char) -> u8 {
    if c == '1' {
        0x1
    } else if c == '2' {
        0x2
    } else if c == '3' {
        0x3
    } else if c == '4' {
        0x4
    } else if c == '5' {
        0x5
    } else if c == '6' {
        0x6
    } else if c == '7' {
        0x7
    } else if c == '8' {
        0x8
    } else if c == '9' {
        0x9
    } else if c == 'a' {
        0xa
    } else if c == 'b' {
        0xb
    } else if c == 'c' {
        0xc
    } else if c == 'd' {
        0xd
    } else if c == 'e' {
        0xe
    } else if c == 'f' {
        0xf
    } else {
        0x0
    }
}

/// The bytes read back from a character sequence by pairing characters
/// two at a time and parsing each pair as one hex-encoded byte; a trailing
/// odd character is dropped.
pub open spec fn bytes_of_hex_chars(chars: Seq<char>) -> Seq<u8>
    decreases chars.len(),
{
    if chars.len() < 2 {
        Seq::empty()
    } else {
        seq![(nibble_of_char(chars[0]) * 16 + nibble_of_char(chars[1])) as u8]
            + bytes_of_hex_chars(chars.skip(2))
    }
}

/// For every finite byte sequence of length `n`, the nibble encoding has
/// exactly `2n` values, each a nibble (below 16), and the hex encoding has
/// exactly `2n` characters, each a lowercase hex digit.
pub proof fn lemma_lengths_and_ranges(bytes: Seq<u8>)
    ensures
        nibble_seq(bytes).len() == 2 * bytes.len(),
        forall|i: int| 0 <= i < nibble_seq(bytes).len() ==> #[trigger] nibble_seq(bytes)[i] < 16,
        hex_char_seq(bytes).len() == 2 * bytes.len(),
        forall|i: int| 0 <= i < hex_char_seq(bytes).len()
            ==> is_hex_digit(#[trigger] hex_char_seq(bytes)[i]),
    decreases bytes.len(),
{
    if bytes.len() == 0 {
    } else {
        let b = bytes[0];
        lemma_lengths_and_ranges(bytes.skip(1));
        assert((b >> 4) & 0xf < 16 && b & 0xf < 16) by (bit_vector);
        assert forall|i: int| 0 <= i < nibble_seq(bytes).len()
            implies #[trigger] nibble_seq(bytes)[i] < 16 by {
            if i >= 2 {
                assert(nibble_seq(bytes)[i] == nibble_seq(bytes.skip(1))[i - 2]);
            }
        }
        assert forall|i: int| 0 <= i < hex_char_seq(bytes).len()
            implies is_hex_digit(#[trigger] hex_char_seq(bytes)[i]) by {
            if i == 0 {
                assert(is_hex_digit(hex_char_of(high_nibble(b))));
            } else if i == 1 {
                assert(is_hex_digit(hex_char_of(low_nibble(b))));
            } else {
                assert(hex_char_seq(bytes)[i] == hex_char_seq(bytes.skip(1))[i - 2]);
            }
        }
    }
}

/// For every byte of the input, the two nibbles produced for it are its
/// high nibble `(b >> 4) & 0xf` then its low nibble `b & 0xf`, and the two
/// characters produced for it are the lowercase hex digits of those two
/// nibbles, in that order.
pub proof fn lemma_per_byte(bytes: Seq<u8>, i: int)
    requires
        0 <= i < bytes.len(),
    ensures
        nibble_seq(bytes)[2 * i] == (bytes[i] >> 4) & 0xf,
        nibble_seq(bytes)[2 * i + 1] == bytes[i] & 0xf,
        hex_char_seq(bytes)[2 * i] == hex_char_of((bytes[i] >> 4) & 0xf),
        hex_char_seq(bytes)[2 * i + 1] == hex_char_of(bytes[i] & 0xf),
    decreases i,
{
    lemma_lengths_and_ranges(bytes);
    if i == 0 {
    } else {
        lemma_per_byte(bytes.skip(1), i - 1);
        assert(bytes.skip(1)[i - 1] == bytes[i]);
        assert(nibble_seq(bytes)[2 * i] == nibble_seq(bytes.skip(1))[2 * (i - 1)]);
        assert(nibble_seq(bytes)[2 * i + 1] == nibble_seq(bytes.skip(1))[2 * (i - 1) + 1]);
        assert(hex_char_seq(bytes)[2 * i] == hex_char_seq(bytes.skip(1))[2 * (i - 1)]);
        assert(hex_char_seq(bytes)[2 * i + 1] == hex_char_seq(bytes.skip(1))[2 * (i - 1) + 1]);
    }
}

/// The hex encoding is exactly the nibble encoding mapped, element by
/// element, through the nibble-to-digit lookup.
pub proof fn lemma_hex_is_mapped_nibbles(bytes: Seq<u8>)
    ensures
        hex_char_seq(bytes).len() == nibble_seq(bytes).len(),
        forall|i: int| 0 <= i < nibble_seq(bytes).len()
            ==> #[trigger] hex_char_seq(bytes)[i] == hex_char_of(nibble_seq(bytes)[i]),
    decreases bytes.len(),
{
    lemma_lengths_and_ranges(bytes);
    if bytes.len() == 0 {
    } else {
        lemma_hex_is_mapped_nibbles(bytes.skip(1));
        assert forall|i: int| 0 <= i < nibble_seq(bytes).len()
            implies #[trigger] hex_char_seq(bytes)[i] == hex_char_of(nibble_seq(bytes)[i]) by {
            if i >= 2 {
                assert(hex_char_seq(bytes)[i] == hex_char_seq(bytes.skip(1))[i - 2]);
                assert(nibble_seq(bytes)[i] == nibble_seq(bytes.skip(1))[i - 2]);
            }
        }
    }
}

/// Round trip: pairing the hex encoding's characters two at a time and
/// parsing each pair as hex reconstructs the original byte sequence
/// exactly, for every input.
pub proof fn lemma_round_trip(bytes: Seq<u8>)
    ensures
        bytes_of_hex_chars(hex_char_seq(bytes)) == bytes,
    decreases bytes.len(),
{
    lemma_lengths_and_ranges(bytes);
    if bytes.len() == 0 {
        assert(bytes_of_hex_chars(hex_char_seq(bytes)) =~= bytes);
    } else {
        let b = bytes[0];
        lemma_round_trip(bytes.skip(1));
        assert((b >> 4) & 0xf < 16 && b & 0xf < 16) by (bit_vector);
        assert(nibble_of_char(hex_char_of(high_nibble(b))) == high_nibble(b));
        assert(nibble_of_char(hex_char_of(low_nibble(b))) == low_nibble(b));
        assert(((b >> 4) & 0xf) * 16 + (b & 0xf) == b) by (bit_vector);
        assert(hex_char_seq(bytes).skip(2) =~= hex_char_seq(bytes.skip(1)));
        assert(bytes_of_hex_chars(hex_char_seq(bytes)) =~= bytes);
    }
}

/// Emptiness: the empty input has an empty nibble encoding and an empty hex
/// encoding, so both adaptors are exhausted on the very first query.
pub proof fn lemma_empty_input()
    ensures
        nibble_seq(Seq::empty()) == Seq::<u8>::empty(),
        hex_char_seq(Seq::empty()) == Seq::<char>::empty(),
{
}

} // verus!

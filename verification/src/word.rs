//! 32-bit register words as they travel over the probe: four bytes, least
//! significant first.

use vstd::prelude::*;

verus! {

/// The word that four little-endian bytes stand for.
pub open spec fn word_of_bytes(bytes: Seq<u8>) -> u32
    recommends
        bytes.len() == 4,
{
    (bytes[0] as u32) | ((bytes[1] as u32) << 8u32) | ((bytes[2] as u32) << 16u32) | ((
    bytes[3] as u32) << 24u32)
}

/// The four little-endian bytes of a word.
pub open spec fn bytes_of_word(word: u32) -> Seq<u8> {
    seq![
        (word & 0xffu32) as u8,
        ((word >> 8u32) & 0xffu32) as u8,
        ((word >> 16u32) & 0xffu32) as u8,
        ((word >> 24u32) & 0xffu32) as u8,
    ]
}

/// Decodes the four bytes of a 32-bit memory read.
pub fn u32_from_le_bytes(bytes: [u8; 4]) -> (word: u32)
    ensures
        word == word_of_bytes(bytes@),
{
    let b0: u32 = bytes[0] as u32;
    let b1: u32 = bytes[1] as u32;
    let b2: u32 = bytes[2] as u32;
    let b3: u32 = bytes[3] as u32;
    b0 | (b1 << 8u32) | (b2 << 16u32) | (b3 << 24u32)
}

/// Encodes a word as the four bytes handed to the flash loader.
pub fn u32_to_le_bytes(word: u32) -> (bytes: [u8; 4])
    ensures
        bytes@ == bytes_of_word(word),
{
    assert(word & 0xffu32 < 256 && (word >> 8u32) & 0xffu32 < 256 && (word >> 16u32) & 0xffu32
        < 256 && (word >> 24u32) & 0xffu32 < 256) by (bit_vector);
    let bytes: [u8; 4] = [
        (word & 0xffu32) as u8,
        ((word >> 8u32) & 0xffu32) as u8,
        ((word >> 16u32) & 0xffu32) as u8,
        ((word >> 24u32) & 0xffu32) as u8,
    ];
    bytes
}

/// The first byte counts once, the second 256 times, and so on: the value
/// of a little-endian word.
pub proof fn lemma_word_value(bytes: Seq<u8>)
    requires
        bytes.len() == 4,
    ensures
        word_of_bytes(bytes) == bytes[0] + 0x100 * bytes[1] + 0x1_0000 * bytes[2] + 0x100_0000
            * bytes[3],
{
    let b0 = bytes[0];
    let b1 = bytes[1];
    let b2 = bytes[2];
    let b3 = bytes[3];
    assert((b0 as u32) | ((b1 as u32) << 8u32) | ((b2 as u32) << 16u32) | ((b3 as u32) << 24u32)
        == b0 + 0x100 * b1 + 0x1_0000 * b2 + 0x100_0000 * b3) by (bit_vector);
}

/// Encoding a word and decoding the bytes gives the word back.
pub proof fn lemma_word_round_trip(word: u32)
    ensures
        bytes_of_word(word).len() == 4,
        word_of_bytes(bytes_of_word(word)) == word,
{
    assert(word & 0xffu32 < 256 && (word >> 8u32) & 0xffu32 < 256 && (word >> 16u32) & 0xffu32
        < 256 && (word >> 24u32) & 0xffu32 < 256) by (bit_vector);
    assert(word == (word & 0xffu32) | (((word >> 8u32) & 0xffu32) << 8u32) | (((word >> 16u32)
        & 0xffu32) << 16u32) | (((word >> 24u32) & 0xffu32) << 24u32)) by (bit_vector);
}

/// Decoding four bytes and encoding the word gives the bytes back.
pub proof fn lemma_bytes_round_trip(bytes: Seq<u8>)
    requires
        bytes.len() == 4,
    ensures
        bytes_of_word(word_of_bytes(bytes)) == bytes,
{
    let b0 = bytes[0] as u32;
    let b1 = bytes[1] as u32;
    let b2 = bytes[2] as u32;
    let b3 = bytes[3] as u32;
    let word = word_of_bytes(bytes);
    assert(b0 < 256 && b1 < 256 && b2 < 256 && b3 < 256 && word == b0 | (b1 << 8u32) | (b2
        << 16u32) | (b3 << 24u32) ==> b0 == word & 0xffu32 && b1 == (word >> 8u32) & 0xffu32
        && b2 == (word >> 16u32) & 0xffu32 && b3 == (word >> 24u32) & 0xffu32) by (bit_vector);
    assert(bytes_of_word(word) =~= bytes);
}

} // verus!

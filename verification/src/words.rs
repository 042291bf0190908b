//! Words as bytes, the lowest byte first.

use vstd::prelude::*;

verus! {

/// The bytes of a word of 16 bits.
pub open spec fn le16(x: u16) -> Seq<u8> {
    seq![(x % 0x100) as u8, (x / 0x100) as u8]
}

/// The bytes of a word of 32 bits.
pub open spec fn le32(x: u32) -> Seq<u8> {
    seq![
        (x % 0x100) as u8,
        (x / 0x100 % 0x100) as u8,
        (x / 0x1_0000 % 0x100) as u8,
        (x / 0x100_0000) as u8,
    ]
}

/// The bytes of a word of 64 bits.
pub open spec fn le64(x: u64) -> Seq<u8> {
    seq![
        (x % 0x100) as u8,
        (x / 0x100 % 0x100) as u8,
        (x / 0x1_0000 % 0x100) as u8,
        (x / 0x100_0000 % 0x100) as u8,
        (x / 0x1_0000_0000 % 0x100) as u8,
        (x / 0x100_0000_0000 % 0x100) as u8,
        (x / 0x1_0000_0000_0000 % 0x100) as u8,
        (x / 0x100_0000_0000_0000) as u8,
    ]
}

/// The word of 16 bits that two bytes make up.
pub open spec fn word16(bytes: Seq<u8>) -> u16 {
    (bytes[0] + 0x100 * bytes[1]) as u16
}

/// The word of 32 bits that four bytes make up.
pub open spec fn word32(bytes: Seq<u8>) -> u32 {
    (bytes[0] + 0x100 * bytes[1] + 0x1_0000 * bytes[2] + 0x100_0000 * bytes[3]) as u32
}

/// The word of 64 bits that eight bytes make up.
pub open spec fn word64(bytes: Seq<u8>) -> u64 {
    (bytes[0] + 0x100 * bytes[1] + 0x1_0000 * bytes[2] + 0x100_0000 * bytes[3] + 0x1_0000_0000
        * bytes[4] + 0x100_0000_0000 * bytes[5] + 0x1_0000_0000_0000 * bytes[6]
        + 0x100_0000_0000_0000 * bytes[7]) as u64
}

/// The bytes of a word of 16 bits.
pub fn to_le16(x: u16) -> (bytes: Vec<u8>)
    ensures
        bytes@ == le16(x),
{
    let bytes: Vec<u8> = vec![(x % 0x100) as u8, (x / 0x100) as u8];
    assert(bytes@ =~= le16(x));
    bytes
}

/// The bytes of a word of 32 bits.
pub fn to_le32(x: u32) -> (bytes: Vec<u8>)
    ensures
        bytes@ == le32(x),
{
    let bytes: Vec<u8> = vec![
        (x % 0x100) as u8,
        (x / 0x100 % 0x100) as u8,
        (x / 0x1_0000 % 0x100) as u8,
        (x / 0x100_0000) as u8,
    ];
    assert(bytes@ =~= le32(x));
    bytes
}

/// The bytes of a word of 64 bits.
pub fn to_le64(x: u64) -> (bytes: Vec<u8>)
    ensures
        bytes@ == le64(x),
{
    let bytes: Vec<u8> = vec![
        (x % 0x100) as u8,
        (x / 0x100 % 0x100) as u8,
        (x / 0x1_0000 % 0x100) as u8,
        (x / 0x100_0000 % 0x100) as u8,
        (x / 0x1_0000_0000 % 0x100) as u8,
        (x / 0x100_0000_0000 % 0x100) as u8,
        (x / 0x1_0000_0000_0000 % 0x100) as u8,
        (x / 0x100_0000_0000_0000) as u8,
    ];
    assert(bytes@ =~= le64(x));
    bytes
}

/// The word of 16 bits that two bytes make up.
pub fn from_le16(bytes: &[u8]) -> (x: u16)
    requires
        bytes@.len() == 2,
    ensures
        x == word16(bytes@),
{
    bytes[0] as u16 + 0x100 * bytes[1] as u16
}

/// The word of 32 bits that four bytes make up.
pub fn from_le32(bytes: &[u8]) -> (x: u32)
    requires
        bytes@.len() == 4,
    ensures
        x == word32(bytes@),
{
    bytes[0] as u32 + 0x100 * bytes[1] as u32 + 0x1_0000 * bytes[2] as u32 + 0x100_0000
        * bytes[3] as u32
}

/// The word of 64 bits that eight bytes make up.
pub fn from_le64(bytes: &[u8]) -> (x: u64)
    requires
        bytes@.len() == 8,
    ensures
        x == word64(bytes@),
{
    bytes[0] as u64 + 0x100 * bytes[1] as u64 + 0x1_0000 * bytes[2] as u64 + 0x100_0000
        * bytes[3] as u64 + 0x1_0000_0000 * bytes[4] as u64 + 0x100_0000_0000 * bytes[5] as u64
        + 0x1_0000_0000_0000 * bytes[6] as u64 + 0x100_0000_0000_0000 * bytes[7] as u64
}

/// A word of 16 bits is made up by its bytes.
pub proof fn law_word16_round_trip(x: u16)
    ensures
        le16(x).len() == 2,
        word16(le16(x)) == x,
{
}

/// A word of 32 bits is made up by its bytes.
pub proof fn law_word32_round_trip(x: u32)
    ensures
        le32(x).len() == 4,
        word32(le32(x)) == x,
{
}

/// A word of 64 bits is made up by its bytes.
pub proof fn law_word64_round_trip(x: u64)
    ensures
        le64(x).len() == 8,
        word64(le64(x)) == x,
{
    assert(x % 0x100 + 0x100 * (x / 0x100 % 0x100) + 0x1_0000 * (x / 0x1_0000 % 0x100) + 0x100_0000
        * (x / 0x100_0000 % 0x100) + 0x1_0000_0000 * (x / 0x1_0000_0000 % 0x100) + 0x100_0000_0000
        * (x / 0x100_0000_0000 % 0x100) + 0x1_0000_0000_0000 * (x / 0x1_0000_0000_0000 % 0x100)
        + 0x100_0000_0000_0000 * (x / 0x100_0000_0000_0000) == x) by (bit_vector);
}

/// The bytes of a word are its digits, the lowest first: byte `i` is what is left of
/// the word above its lowest `8 * i` bits. Shorter words have the bytes of longer ones
/// that are as large.
pub proof fn law_bytes_are_digits(x: u64)
    ensures
        le64(x).len() == 8,
        forall|i: u64| i < 8 ==> (#[trigger] le64(x)[i as int]) as u64 == (x >> (8 * i) as u64) & 0xff,
        x <= 0xffff_ffff ==> le32(x as u32) == le64(x).take(4),
        x <= 0xffff ==> le16(x as u16) == le64(x).take(2),
{
    assert(x % 0x100 == (x >> 0) & 0xff && x / 0x100 % 0x100 == (x >> 8) & 0xff && x / 0x1_0000
        % 0x100 == (x >> 16) & 0xff && x / 0x100_0000 % 0x100 == (x >> 24) & 0xff && x
        / 0x1_0000_0000 % 0x100 == (x >> 32) & 0xff && x / 0x100_0000_0000 % 0x100 == (x >> 40)
        & 0xff && x / 0x1_0000_0000_0000 % 0x100 == (x >> 48) & 0xff && x / 0x100_0000_0000_0000
        == (x >> 56) & 0xff) by (bit_vector);
    assert forall|i: u64| i < 8 implies (#[trigger] le64(x)[i as int]) as u64 == (x >> (8 * i) as u64)
        & 0xff by {
        assert(i == 0 || i == 1 || i == 2 || i == 3 || i == 4 || i == 5 || i == 6 || i == 7);
    }
    if x <= 0xffff_ffff {
        assert(le32(x as u32) =~= le64(x).take(4));
    }
    if x <= 0xffff {
        assert(le16(x as u16) =~= le64(x).take(2));
    }
}

/// Bytes are those of the word that they make up, and no other bytes are.
pub proof fn law_bytes_round_trip(bytes: Seq<u8>)
    ensures
        bytes.len() == 2 ==> le16(word16(bytes)) == bytes,
        bytes.len() == 4 ==> le32(word32(bytes)) == bytes,
        bytes.len() == 8 ==> le64(word64(bytes)) == bytes,
{
    if bytes.len() == 2 {
        assert(le16(word16(bytes)) =~= bytes);
    } else if bytes.len() == 4 {
        let x = word32(bytes);
        lemma_digits32(x, bytes[0], bytes[1], bytes[2], bytes[3]);
        assert(le32(x) =~= bytes);
    } else if bytes.len() == 8 {
        lemma_bytes_round_trip64(bytes);
    }
}

proof fn lemma_bytes_round_trip64(bytes: Seq<u8>)
    requires
        bytes.len() == 8,
    ensures
        le64(word64(bytes)) == bytes,
{
    let x = word64(bytes);
    lemma_digits64(
        x,
        bytes[0],
        bytes[1],
        bytes[2],
        bytes[3],
        bytes[4],
        bytes[5],
        bytes[6],
        bytes[7],
    );
    let y = le64(x);
    assert(y.len() == 8);
    assert(y[0] == bytes[0] && y[1] == bytes[1] && y[2] == bytes[2] && y[3] == bytes[3]);
    assert(y[4] == bytes[4] && y[5] == bytes[5] && y[6] == bytes[6] && y[7] == bytes[7]);
    assert(y =~= bytes);
}

proof fn lemma_digits32(x: u32, b0: u8, b1: u8, b2: u8, b3: u8)
    by (bit_vector)
    requires
        x == b0 + 0x100 * b1 + 0x1_0000 * b2 + 0x100_0000 * b3,
    ensures
        x % 0x100 == b0,
        x / 0x100 % 0x100 == b1,
        x / 0x1_0000 % 0x100 == b2,
        x / 0x100_0000 == b3,
{
}

proof fn lemma_digits64(
    x: u64,
    b0: u8,
    b1: u8,
    b2: u8,
    b3: u8,
    b4: u8,
    b5: u8,
    b6: u8,
    b7: u8,
)
    by (bit_vector)
    requires
        x == b0 + 0x100 * b1 + 0x1_0000 * b2 + 0x100_0000 * b3 + 0x1_0000_0000 * b4
            + 0x100_0000_0000 * b5 + 0x1_0000_0000_0000 * b6 + 0x100_0000_0000_0000 * b7,
    ensures
        x % 0x100 == b0,
        x / 0x100 % 0x100 == b1,
        x / 0x1_0000 % 0x100 == b2,
        x / 0x100_0000 % 0x100 == b3,
        x / 0x1_0000_0000 % 0x100 == b4,
        x / 0x100_0000_0000 % 0x100 == b5,
        x / 0x1_0000_0000_0000 % 0x100 == b6,
        x / 0x100_0000_0000_0000 == b7,
{
}

} // verus!

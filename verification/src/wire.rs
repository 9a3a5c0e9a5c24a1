//! How the format spells numbers in bytes: least significant byte first,
//! signed numbers in two's complement.

use vstd::prelude::*;

verus! {

/// An IEEE 754 binary32 number, held by its bit pattern.
#[derive(Clone, Copy, Debug, PartialEq, Eq, Structural)]
pub struct Binary32 {
    pub bits: u32,
}

/// Two numbers in a row.
pub type Vec2 = [Binary32; 2];

/// Three numbers in a row.
pub type Vec3 = [Binary32; 3];

/// Four numbers in a row.
pub type Vec4 = [Binary32; 4];

/// The number that one, two or four bytes spell, least significant byte first.
pub open spec fn le_unsigned(b: Seq<u8>) -> int
    recommends
        b.len() == 1 || b.len() == 2 || b.len() == 4,
{
    if b.len() == 1 {
        b[0] as int
    } else if b.len() == 2 {
        b[0] + 0x100 * b[1]
    } else {
        b[0] + 0x100 * b[1] + 0x1_0000 * b[2] + 0x100_0000 * b[3]
    }
}

/// How many numbers one, two or four bytes can spell.
pub open spec fn le_modulus(width: nat) -> int
    recommends
        width == 1 || width == 2 || width == 4,
{
    if width == 1 {
        0x100
    } else if width == 2 {
        0x1_0000
    } else {
        0x1_0000_0000
    }
}

/// The number that one, two or four bytes spell in two's complement, least
/// significant byte first.
pub open spec fn le_signed(b: Seq<u8>) -> int
    recommends
        b.len() == 1 || b.len() == 2 || b.len() == 4,
{
    let u = le_unsigned(b);
    if 2 * u < le_modulus(b.len()) {
        u
    } else {
        u - le_modulus(b.len())
    }
}

pub open spec fn le_u16(b: Seq<u8>) -> u16
    recommends
        b.len() == 2,
{
    le_unsigned(b) as u16
}

pub open spec fn le_u32(b: Seq<u8>) -> u32
    recommends
        b.len() == 4,
{
    le_unsigned(b) as u32
}

pub open spec fn le_i32(b: Seq<u8>) -> i32
    recommends
        b.len() == 4,
{
    le_signed(b) as i32
}

pub open spec fn le_binary32(b: Seq<u8>) -> Binary32
    recommends
        b.len() == 4,
{
    Binary32 { bits: le_u32(b) }
}

/// A reference read as a signed number: a negative one refers to nothing.
pub open spec fn signed_index(b: Seq<u8>) -> Option<usize>
    recommends
        b.len() == 1 || b.len() == 2 || b.len() == 4,
{
    if le_signed(b) < 0 {
        None
    } else {
        Some(le_signed(b) as usize)
    }
}

/// A reference to a vertex: unsigned in one or two bytes, signed in four.
pub open spec fn vertex_index(b: Seq<u8>) -> Option<usize>
    recommends
        b.len() == 1 || b.len() == 2 || b.len() == 4,
{
    if b.len() == 4 {
        signed_index(b)
    } else {
        Some(le_unsigned(b) as usize)
    }
}

/// The two bytes that spell `v`, least significant byte first.
pub open spec fn u16_bytes(v: u16) -> Seq<u8> {
    seq![(v % 0x100) as u8, (v / 0x100) as u8]
}

/// The four bytes that spell `v`, least significant byte first.
pub open spec fn u32_bytes(v: u32) -> Seq<u8> {
    seq![
        (v % 0x100) as u8,
        (v / 0x100 % 0x100) as u8,
        (v / 0x1_0000 % 0x100) as u8,
        (v / 0x100_0000) as u8,
    ]
}

/// The four bytes that spell `v` in two's complement, least significant byte
/// first.
pub open spec fn i32_bytes(v: i32) -> Seq<u8> {
    u32_bytes(
        (if v < 0 {
            v + 0x1_0000_0000
        } else {
            v as int
        }) as u32,
    )
}

/// The four bytes that spell `v`: its bit pattern, least significant byte
/// first.
pub open spec fn binary32_bytes(v: Binary32) -> Seq<u8> {
    u32_bytes(v.bits)
}

/// The bytes that spell a row of numbers, one after the other.
pub open spec fn vector_bytes(v: Seq<Binary32>) -> Seq<u8>
    decreases v.len(),
{
    if v.len() == 0 {
        Seq::empty()
    } else {
        vector_bytes(v.drop_last()) + binary32_bytes(v.last())
    }
}

/// Decoding the bytes that spell a 16-bit number gives the number back.
pub proof fn lemma_u16_round_trip(v: u16)
    ensures
        u16_bytes(v).len() == 2,
        le_u16(u16_bytes(v)) == v,
{
}

/// Decoding the bytes that spell a 32-bit number gives the number back.
pub proof fn lemma_u32_round_trip(v: u32)
    ensures
        u32_bytes(v).len() == 4,
        le_u32(u32_bytes(v)) == v,
{
}

/// Decoding the bytes that spell a signed 32-bit number gives the number back.
pub proof fn lemma_i32_round_trip(v: i32)
    ensures
        i32_bytes(v).len() == 4,
        le_i32(i32_bytes(v)) == v,
{
}

/// Decoding the bytes that spell a binary32 number gives the number back, bit
/// for bit.
pub proof fn lemma_binary32_round_trip(v: Binary32)
    ensures
        binary32_bytes(v).len() == 4,
        le_binary32(binary32_bytes(v)) == v,
{
}

/// A row of `n` numbers is spelt in `4 * n` bytes.
pub proof fn lemma_vector_bytes_len(v: Seq<Binary32>)
    ensures
        vector_bytes(v).len() == 4 * v.len(),
    decreases v.len(),
{
    if v.len() > 0 {
        lemma_vector_bytes_len(v.drop_last());
    }
}

/// A signed reference refers to nothing exactly where its bytes spell a
/// negative number in two's complement, and else to the number they spell.
pub proof fn lemma_signed_index(b: Seq<u8>)
    requires
        b.len() == 1 || b.len() == 2 || b.len() == 4,
    ensures
        signed_index(b) is None <==> le_signed(b) < 0,
        le_signed(b) >= 0 ==> signed_index(b) == Some(le_signed(b) as usize),
        le_signed(b) >= 0 ==> le_signed(b) as usize == le_signed(b),
        -le_modulus(b.len()) <= 2 * le_signed(b) < le_modulus(b.len()),
{
}

/// A reference to a vertex of one or two bytes always refers to something:
/// to the unsigned number that its bytes spell. One of four bytes is a signed
/// reference.
pub proof fn lemma_vertex_index(b: Seq<u8>)
    requires
        b.len() == 1 || b.len() == 2 || b.len() == 4,
    ensures
        b.len() != 4 ==> vertex_index(b) == Some(le_unsigned(b) as usize) && le_unsigned(b) as usize
            == le_unsigned(b),
        b.len() == 4 ==> vertex_index(b) == signed_index(b),
{
}

pub fn u16_from_le(b: [u8; 2]) -> (v: u16)
    ensures
        v == le_u16(b@),
{
    b[0] as u16 + 0x100 * (b[1] as u16)
}

pub fn u32_from_le(b: [u8; 4]) -> (v: u32)
    ensures
        v == le_u32(b@),
{
    b[0] as u32 + 0x100 * (b[1] as u32) + 0x1_0000 * (b[2] as u32) + 0x100_0000 * (b[3] as u32)
}

pub fn i32_from_le(b: [u8; 4]) -> (v: i32)
    ensures
        v == le_i32(b@),
{
    let u = u32_from_le(b);
    if u < 0x8000_0000 {
        u as i32
    } else {
        ((u - 0x8000_0000) as i32) + i32::MIN
    }
}

pub fn signed_index_from_le<const N: usize>(b: [u8; N]) -> (r: Option<usize>)
    requires
        N == 1 || N == 2 || N == 4,
    ensures
        r == signed_index(b@),
{
    if N == 1 {
        if b[0] < 0x80 {
            Some(b[0] as usize)
        } else {
            None
        }
    } else if N == 2 {
        if b[1] < 0x80 {
            Some(b[0] as usize + 0x100 * (b[1] as usize))
        } else {
            None
        }
    } else {
        if b[3] < 0x80 {
            Some(
                b[0] as usize + 0x100 * (b[1] as usize) + 0x1_0000 * (b[2] as usize) + 0x100_0000
                    * (b[3] as usize),
            )
        } else {
            None
        }
    }
}

pub fn vertex_index_from_le<const N: usize>(b: [u8; N]) -> (r: Option<usize>)
    requires
        N == 1 || N == 2 || N == 4,
    ensures
        r == vertex_index(b@),
{
    if N == 1 {
        Some(b[0] as usize)
    } else if N == 2 {
        Some(b[0] as usize + 0x100 * (b[1] as usize))
    } else {
        signed_index_from_le(b)
    }
}

} // verus!

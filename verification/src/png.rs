//! The start of a PNG stream: the signature and the header chunk, which
//! holds the image's width and height.

use vstd::prelude::*;

verus! {

/// The eight bytes that open every PNG stream.
pub open spec fn png_signature() -> Seq<u8> {
    seq![0x89u8, 0x50u8, 0x4eu8, 0x47u8, 0x0du8, 0x0au8, 0x1au8, 0x0au8]
}

/// The length (13) and the type (`IHDR`) that open the header chunk.
pub open spec fn header_chunk_start() -> Seq<u8> {
    seq![0x00u8, 0x00u8, 0x00u8, 0x0du8, 0x49u8, 0x48u8, 0x44u8, 0x52u8]
}

/// The number that four bytes hold, most significant byte first.
pub open spec fn big_endian_u32(b0: u8, b1: u8, b2: u8, b3: u8) -> u32 {
    (b0 as nat * 0x100_0000 + b1 as nat * 0x1_0000 + b2 as nat * 0x100 + b3 as nat) as u32
}

/// Whether `bytes` opens with the PNG signature.
pub open spec fn opens_as_png(bytes: Seq<u8>) -> bool {
    bytes.len() >= 8 && bytes.subrange(0, 8) == png_signature()
}

/// The width and height that the header of a PNG stream states: the stream
/// opens with the signature, the header chunk follows at once, and its first
/// two fields are width and height. `None` where `bytes` does not open so.
pub open spec fn png_header_size(bytes: Seq<u8>) -> Option<(u32, u32)> {
    if bytes.len() >= 24 && opens_as_png(bytes) && bytes.subrange(8, 16)
        == header_chunk_start() {
        Some(
            (
                big_endian_u32(bytes[16], bytes[17], bytes[18], bytes[19]),
                big_endian_u32(bytes[20], bytes[21], bytes[22], bytes[23]),
            ),
        )
    } else {
        None
    }
}

/// The trailer chunk that closes every PNG stream: no data, the type
/// `IEND`, and the checksum of the type.
pub open spec fn png_trailer() -> Seq<u8> {
    seq![
        0x00u8, 0x00u8, 0x00u8, 0x00u8, 0x49u8, 0x45u8, 0x4eu8, 0x44u8, 0xaeu8, 0x42u8, 0x60u8,
        0x82u8,
    ]
}

/// Whether `bytes` ends with the trailer chunk.
pub open spec fn png_is_closed(bytes: Seq<u8>) -> bool {
    bytes.len() >= 12 && bytes.subrange(bytes.len() - 12, bytes.len() as int) == png_trailer()
}

/// Whether the eight bytes of `bytes` from `at` on are `expected`.
fn holds_at(bytes: &[u8], at: usize, expected: [u8; 8]) -> (same: bool)
    requires
        at + 8 <= bytes.len(),
    ensures
        same == (bytes@.subrange(at as int, at + 8) == expected@),
{
    let mut i: usize = 0;
    while i < 8
        invariant
            i <= 8,
            at + 8 <= bytes.len(),
            forall|j: int| 0 <= j < i ==> bytes[at + j] == expected[j],
        decreases 8 - i,
    {
        if bytes[at + i] != expected[i] {
            assert(bytes@.subrange(at as int, at + 8)[i as int] != expected@[i as int]);
            return false;
        }
        i = i + 1;
    }
    assert(bytes@.subrange(at as int, at + 8) =~= expected@);
    true
}

/// The number that the four bytes of `bytes` from `at` on hold, most
/// significant byte first.
fn read_big_endian_u32(bytes: &[u8], at: usize) -> (n: u32)
    requires
        at + 4 <= bytes.len(),
    ensures
        n == big_endian_u32(
            bytes[at as int],
            bytes[at + 1],
            bytes[at + 2],
            bytes[at + 3],
        ),
{
    let b0: u32 = bytes[at] as u32;
    let b1: u32 = bytes[at + 1] as u32;
    let b2: u32 = bytes[at + 2] as u32;
    let b3: u32 = bytes[at + 3] as u32;
    b0 * 0x100_0000 + b1 * 0x1_0000 + b2 * 0x100 + b3
}

/// The width and height stated in the header of the PNG stream `bytes`.
pub fn read_png_size(bytes: &[u8]) -> (size: Option<(u32, u32)>)
    ensures
        size == png_header_size(bytes@),
{
    if bytes.len() < 24 {
        return None;
    }
    let signature: [u8; 8] = [0x89, 0x50, 0x4e, 0x47, 0x0d, 0x0a, 0x1a, 0x0a];
    let chunk_start: [u8; 8] = [0x00, 0x00, 0x00, 0x0d, 0x49, 0x48, 0x44, 0x52];
    if holds_at(bytes, 0, signature) && holds_at(bytes, 8, chunk_start) {
        Some((read_big_endian_u32(bytes, 16), read_big_endian_u32(bytes, 20)))
    } else {
        None
    }
}

/// Whether the PNG stream `bytes` ends with the trailer chunk.
pub fn is_closed_png(bytes: &[u8]) -> (closed: bool)
    ensures
        closed == png_is_closed(bytes@),
{
    if bytes.len() < 12 {
        return false;
    }
    let trailer: [u8; 12] = [
        0x00, 0x00, 0x00, 0x00, 0x49, 0x45, 0x4e, 0x44, 0xae, 0x42, 0x60, 0x82,
    ];
    let from: usize = bytes.len() - 12;
    assert(trailer@ =~= png_trailer());
    let mut i: usize = 0;
    while i < 12
        invariant
            i <= 12,
            from + 12 == bytes.len(),
            trailer@ == png_trailer(),
            forall|j: int| 0 <= j < i ==> bytes[from + j] == trailer[j],
        decreases 12 - i,
    {
        if bytes[from + i] != trailer[i] {
            proof {
                let at: int = i as int;
                assert(bytes@.subrange(from as int, bytes.len() as int)[at] != png_trailer()[at]);
            }
            return false;
        }
        i = i + 1;
    }
    assert(bytes@.subrange(from as int, bytes.len() as int) =~= png_trailer());
    true
}

} // verus!

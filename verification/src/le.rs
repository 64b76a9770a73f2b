//! Little-endian byte access within a 32-bit configuration DWORD, shared by
//! the CONFIG_ADDRESS latch and by configuration-space register writes.

use vstd::prelude::*;

verus! {

/// A 32-bit word assembled from four bytes in little-endian order.
pub open spec fn le_u32(b0: u8, b1: u8, b2: u8, b3: u8) -> u32 {
    ((b3 as u32) << 24) | ((b2 as u32) << 16) | ((b1 as u32) << 8) | (b0 as u32)
}

/// Byte `i` (0 = least significant) of a 32-bit word.
pub open spec fn u32_byte(value: u32, i: int) -> u8 {
    (value >> (8 * i) as u32) as u8
}

/// The value of a 32-bit word after writing `data` into it at byte `offset`,
/// little-endian. Supported widths are 1, 2 and 4 bytes; any other width, or
/// a write that would cross the DWORD boundary, leaves the word unchanged.
pub open spec fn dword_merge(word: u32, offset: u64, data: Seq<u8>) -> u32 {
    let sh = (8 * offset) as u32;
    if offset + data.len() > 4 {
        word
    } else if data.len() == 1 {
        (word & !(0xffu32 << sh)) | ((data[0] as u32) << sh)
    } else if data.len() == 2 {
        (word & !(0xffffu32 << sh)) | ((((data[1] as u32) << 8) | (data[0] as u32)) << sh)
    } else if data.len() == 4 {
        le_u32(data[0], data[1], data[2], data[3])
    } else {
        word
    }
}

/// Relies on byteorder's `LittleEndian::read_u32`: the first four bytes of
/// the slice, read as a little-endian 32-bit integer. It panics on shorter
/// input, so that input is excluded.
#[verifier::external_body]
pub(crate) fn read_u32_le(data: &[u8]) -> (r: u32)
    requires
        data@.len() >= 4,
    ensures
        r == le_u32(data@[0], data@[1], data@[2], data@[3]),
{
    <byteorder::LittleEndian as byteorder::ByteOrder>::read_u32(data)
}

/// Write `data` into `word` at byte `offset`, little-endian.
pub fn apply_dword_write(word: u32, offset: u64, data: &[u8]) -> (r: u32)
    ensures
        r == dword_merge(word, offset, data@),
{
    if offset >= 4 || data.len() > 4 - (offset as usize) {
        return word;
    }
    let sh: u32 = (offset as u32) * 8;
    match data.len() {
        1 => {
            let value = (data[0] as u32) << sh;
            (word & !(0xffu32 << sh)) | value
        },
        2 => {
            let value = (((data[1] as u32) << 8) | (data[0] as u32)) << sh;
            (word & !(0xffffu32 << sh)) | value
        },
        4 => read_u32_le(data),
        _ => word,
    }
}

/// Writing the two halves of a DWORD as consecutive word writes at offsets 0
/// and 2 leaves the word exactly as one DWORD write of all four bytes would.
pub proof fn lemma_word_writes_compose(word: u32, b0: u8, b1: u8, b2: u8, b3: u8)
    ensures
        dword_merge(dword_merge(word, 0, seq![b0, b1]), 2, seq![b2, b3]) == dword_merge(
            word,
            0,
            seq![b0, b1, b2, b3],
        ),
{
    let s01 = seq![b0, b1];
    let s23 = seq![b2, b3];
    let s = seq![b0, b1, b2, b3];
    let w1 = dword_merge(word, 0, s01);
    assert(w1 == (word & !(0xffffu32 << 0u32)) | ((((b1 as u32) << 8) | (b0 as u32)) << 0u32));
    assert(dword_merge(w1, 2, s23) == (w1 & !(0xffffu32 << 16u32)) | ((((b3 as u32) << 8) | (
    b2 as u32)) << 16u32));
    assert(dword_merge(word, 0, s) == le_u32(b0, b1, b2, b3));
    assert({
        let w1 = (word & !(0xffffu32 << 0u32)) | ((((b1 as u32) << 8) | (b0 as u32)) << 0u32);
        ((w1 & !(0xffffu32 << 16u32)) | ((((b3 as u32) << 8) | (b2 as u32)) << 16u32)) == (((
        b3 as u32) << 24) | ((b2 as u32) << 16) | ((b1 as u32) << 8) | (b0 as u32))
    }) by (bit_vector);
}

/// Writing the four bytes of a DWORD one at a time, at offsets 0 through 3,
/// leaves the word exactly as one DWORD write of all four bytes would.
pub proof fn lemma_byte_writes_compose(word: u32, b0: u8, b1: u8, b2: u8, b3: u8)
    ensures
        dword_merge(
            dword_merge(dword_merge(dword_merge(word, 0, seq![b0]), 1, seq![b1]), 2, seq![b2]),
            3,
            seq![b3],
        ) == dword_merge(word, 0, seq![b0, b1, b2, b3]),
{
    let w1 = dword_merge(word, 0, seq![b0]);
    let w2 = dword_merge(w1, 1, seq![b1]);
    let w3 = dword_merge(w2, 2, seq![b2]);
    let w4 = dword_merge(w3, 3, seq![b3]);
    assert(w1 == (word & !(0xffu32 << 0u32)) | ((b0 as u32) << 0u32));
    assert(w2 == (w1 & !(0xffu32 << 8u32)) | ((b1 as u32) << 8u32));
    assert(w3 == (w2 & !(0xffu32 << 16u32)) | ((b2 as u32) << 16u32));
    assert(w4 == (w3 & !(0xffu32 << 24u32)) | ((b3 as u32) << 24u32));
    assert(dword_merge(word, 0, seq![b0, b1, b2, b3]) == le_u32(b0, b1, b2, b3));
    assert({
        let w1 = (word & !(0xffu32 << 0u32)) | ((b0 as u32) << 0u32);
        let w2 = (w1 & !(0xffu32 << 8u32)) | ((b1 as u32) << 8u32);
        let w3 = (w2 & !(0xffu32 << 16u32)) | ((b2 as u32) << 16u32);
        ((w3 & !(0xffu32 << 24u32)) | ((b3 as u32) << 24u32)) == (((b3 as u32) << 24) | ((
        b2 as u32) << 16) | ((b1 as u32) << 8) | (b0 as u32))
    }) by (bit_vector);
}

} // verus!

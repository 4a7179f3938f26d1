//! Checksums that the screen firmware verifies on incoming frames.
//!
//! Three schemes are in use. A single byte made from the sum of the payload
//! guards the payload of some Zoom TKL Dyna commands, a 16-bit shift-register
//! checksum guards every Zoom TKL Dyna frame as a whole, and a 32-bit cyclic
//! redundancy checksum guards each chunk of a media upload.

use vstd::prelude::*;

verus! {

/// Sum of the bytes of `s`, as a mathematical integer.
pub open spec fn byte_sum(s: Seq<u8>) -> int
    decreases s.len(),
{
    if s.len() == 0 {
        0
    } else {
        byte_sum(s.drop_last()) + s.last()
    }
}

/// The checksum byte of a region: the low byte of the sum of the region, with every
/// bit flipped.
pub open spec fn xor_sum_of(s: Seq<u8>) -> int {
    255 - byte_sum(s) % 256
}

/// Computes the single-byte checksum of `data[start..end]`.
///
/// The firmware adds the bytes up in a 32-bit register, flips the low eight bits
/// and keeps them; only the sum modulo 256 can reach the result.
pub fn xor_sum_checksum(data: &[u8], start: usize, end: usize) -> (sum: u8)
    requires
        start <= end <= data.len(),
    ensures
        sum == xor_sum_of(data@.subrange(start as int, end as int)),
{
    let mut acc: u32 = 0;
    let mut i: usize = start;
    while i < end
        invariant
            start <= i <= end <= data.len(),
            acc < 256,
            acc == byte_sum(data@.subrange(start as int, i as int)) % 256,
        decreases end - i,
    {
        proof {
            let before = data@.subrange(start as int, i as int);
            let after = data@.subrange(start as int, i + 1);
            assert(after.drop_last() =~= before);
            assert(after.last() == data@[i as int]);
        }
        acc = (acc + data[i] as u32) % 256;
        i += 1;
    }
    let flipped: u32 = acc ^ 255;
    assert(flipped == 255 - acc) by (bit_vector)
        requires
            flipped == acc ^ 255,
            acc < 256,
    ;
    flipped as u8
}

/// Regions whose sums agree modulo 256 have the same checksum byte.
pub proof fn lemma_xor_sum_depends_on_sum(a: Seq<u8>, b: Seq<u8>)
    requires
        byte_sum(a) % 256 == byte_sum(b) % 256,
    ensures
        xor_sum_of(a) == xor_sum_of(b),
{
}

/// The sum of a sequence is the sum of what is left when one byte is taken out,
/// plus that byte.
pub proof fn lemma_byte_sum_remove(s: Seq<u8>, i: int)
    requires
        0 <= i < s.len(),
    ensures
        byte_sum(s) == byte_sum(s.remove(i)) + s[i],
    decreases s.len(),
{
    if i == s.len() - 1 {
        assert(s.remove(i) =~= s.drop_last());
    } else {
        lemma_byte_sum_remove(s.drop_last(), i);
        assert(s.remove(i).drop_last() =~= s.drop_last().remove(i));
        assert(s.remove(i).last() == s.last());
    }
}

/// The checksum byte ignores the order of the bytes: two regions that hold the same
/// bytes, each as often as the other, have the same checksum byte.
pub proof fn lemma_xor_sum_reorder(a: Seq<u8>, b: Seq<u8>)
    requires
        a.to_multiset() == b.to_multiset(),
    ensures
        byte_sum(a) == byte_sum(b),
        xor_sum_of(a) == xor_sum_of(b),
    decreases a.len(),
{
    broadcast use vstd::seq_lib::group_to_multiset_ensures;

    a.to_multiset_ensures();
    b.to_multiset_ensures();
    if a.len() == 0 {
        assert(b.len() == 0);
    } else {
        let x = a.last();
        assert(a.to_multiset().count(x) > 0);
        assert(b.to_multiset().contains(x));
        let j = choose|j: int| 0 <= j < b.len() && b[j] == x;
        lemma_byte_sum_remove(b, j);
        assert(a.drop_last() =~= a.remove(a.len() - 1));
        assert(a.drop_last().to_multiset() =~= a.to_multiset().remove(x));
        assert(b.remove(j).to_multiset() =~= b.to_multiset().remove(x));
        lemma_xor_sum_reorder(a.drop_last(), b.remove(j));
    }
}

/// One shift of the 16-bit register: the top bit leaves, and where it was set
/// the feedback polynomial `0x1021` is folded in.
pub open spec fn crc16_shift(crc: u16) -> u16 {
    if crc & 0x8000 != 0 {
        (crc << 1) ^ 0x1021
    } else {
        crc << 1
    }
}

/// `n` shifts of the register in a row.
pub open spec fn crc16_shifts(crc: u16, n: nat) -> u16
    decreases n,
{
    if n == 0 {
        crc
    } else {
        crc16_shift(crc16_shifts(crc, (n - 1) as nat))
    }
}

/// The register after one more byte: the byte is folded into the high half,
/// then the register is shifted eight times.
pub open spec fn crc16_byte(crc: u16, byte: u8) -> u16 {
    crc16_shifts(crc ^ ((byte as u16) << 8), 8)
}

/// The 16-bit checksum of a region: the register starts at `0xFFFF` and takes the
/// bytes in order.
pub open spec fn crc16(s: Seq<u8>) -> u16
    decreases s.len(),
{
    if s.len() == 0 {
        0xFFFF
    } else {
        crc16_byte(crc16(s.drop_last()), s.last())
    }
}

/// Computes the 16-bit checksum of the first `data_buffer_len` bytes of a frame body.
///
/// The seed `0xFFFF` and the polynomial `0x1021` are what the firmware uses; the
/// result lies in `0..=0xFFFF`.
pub fn magic_checksum_processing(data_buffer: [u8; 32], data_buffer_len: usize) -> (magic: i32)
    requires
        data_buffer_len <= 32,
    ensures
        magic == crc16(data_buffer@.take(data_buffer_len as int)),
{
    let mut magic_number_2: u32 = 65535;
    let mut y: usize = 0;
    while y < data_buffer_len
        invariant
            y <= data_buffer_len <= 32,
            magic_number_2 == crc16(data_buffer@.take(y as int)),
        decreases data_buffer_len - y,
    {
        let ghost before: u16 = crc16(data_buffer@.take(y as int));
        let byte: u8 = data_buffer[y];
        proof {
            assert(data_buffer@.take(y + 1).drop_last() =~= data_buffer@.take(y as int));
            assert(data_buffer@.take(y + 1).last() == byte);
        }
        let ghost folded: u16 = before ^ ((byte as u16) << 8);
        let prev: u32 = magic_number_2;
        magic_number_2 = magic_number_2 ^ ((byte as u32) << 8);
        assert(magic_number_2 == folded) by (bit_vector)
            requires
                magic_number_2 == prev ^ ((byte as u32) << 8),
                folded == before ^ ((byte as u16) << 8),
                prev == before,
        ;
        let mut z: usize = 0;
        while z < 8
            invariant
                z <= 8,
                magic_number_2 == crc16_shifts(folded, z as nat),
            decreases 8 - z,
        {
            let ghost reg: u16 = crc16_shifts(folded, z as nat);
            let prev: u32 = magic_number_2;
            if (magic_number_2 & 32768) > 0 {
                magic_number_2 = (magic_number_2 << 1) ^ 4129;
            } else {
                magic_number_2 = magic_number_2 << 1;
            }
            magic_number_2 = magic_number_2 & 65535;
            assert(magic_number_2 == crc16_shift(reg)) by (bit_vector)
                requires
                    prev == reg,
                    magic_number_2 == (if (prev & 32768) > 0 {
                        (prev << 1) ^ 4129
                    } else {
                        prev << 1
                    }) & 65535,
            ;
            z += 1;
        }
        y += 1;
    }
    magic_number_2 as i32
}

/// One shift of the 32-bit register: the lowest bit leaves, and where it was set
/// the feedback polynomial `0xEDB88320` is folded in.
pub open spec fn crc32_shift(crc: u32) -> u32 {
    if crc & 1 != 0 {
        (crc >> 1) ^ 0xEDB8_8320
    } else {
        crc >> 1
    }
}

/// `n` shifts of the 32-bit register in a row.
pub open spec fn crc32_shifts(crc: u32, n: nat) -> u32
    decreases n,
{
    if n == 0 {
        crc
    } else {
        crc32_shift(crc32_shifts(crc, (n - 1) as nat))
    }
}

/// The 32-bit register after one more byte: the byte is folded into the low
/// end, then the register is shifted eight times.
pub open spec fn crc32_byte(crc: u32, byte: u8) -> u32 {
    crc32_shifts(crc ^ (byte as u32), 8)
}

/// The 32-bit register after a region: it starts with every bit set and takes
/// the bytes in order.
pub open spec fn crc32_register(data: Seq<u8>) -> u32
    decreases data.len(),
{
    if data.len() == 0 {
        0xFFFF_FFFF
    } else {
        crc32_byte(crc32_register(data.drop_last()), data.last())
    }
}

/// The 32-bit cyclic redundancy checksum of a byte sequence as IEEE 802.3 has
/// it: the register after the bytes, with every bit flipped.
pub open spec fn crc32_of(data: Seq<u8>) -> u32 {
    crc32_register(data) ^ 0xFFFF_FFFF
}

/// Calls `crc32fast::hash`, which returns the IEEE CRC-32 of the bytes handed to
/// it. The crate computes it with tables or with instructions of the processor;
/// the contract claims that what comes out is the checksum as the standard
/// defines it, bit by bit.
#[verifier::external_body]
pub(crate) fn crc32(data: &[u8]) -> (crc: u32)
    ensures
        crc == crc32_of(data@),
{
    crc32fast::hash(data)
}

} // verus!

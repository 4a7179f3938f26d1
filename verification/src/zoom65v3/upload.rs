//! Sending a picture or an animation to the screen.
//!
//! An upload is announced with its slot and its length, sent in chunks of 24
//! bytes, closed, and followed by a reset of the screen. Every chunk travels in a
//! frame of its own with its number and a 32-bit checksum.

use crate::checksum::{crc32, crc32_of};
use crate::float::be16;
use crate::transport::frames_of;
use crate::zoom65v3::abi::{
    be32, command_frame, reset_screen, upload_end, upload_length, upload_start, Arg,
    RESET_SCREEN, UPDATE_OPCODE, UPLOAD_END, UPLOAD_LENGTH, UPLOAD_START,
};
use crate::zoom65v3::types::UploadChannel;
use vstd::prelude::*;
use vstd::slice::slice_subrange;

verus! {

/// How many bytes of the upload one frame carries.
pub const CHUNK_LEN: usize = 24;

/// The length of a picture: 110 by 110 pixels of three bytes.
pub const IMAGE_LEN: usize = 36300;

/// What the memory of the screen holds: an animation has to be shorter.
pub const GIF_LIMIT: usize = 1013808;

/// `n` zero bytes.
pub open spec fn zeros(n: nat) -> Seq<u8> {
    Seq::new(n, |i: int| 0u8)
}

/// How many chunks an upload of `len` bytes has.
pub open spec fn chunk_count(len: nat) -> nat {
    (len + 23) / 24
}

/// The bytes of chunk `index`: 24 of them, or what is left at the end.
pub open spec fn chunk_at(data: Seq<u8>, index: int) -> Seq<u8> {
    data.subrange(
        index * 24,
        if index * 24 + 24 <= data.len() {
            index * 24 + 24
        } else {
            data.len() as int
        },
    )
}

/// How many zero bytes follow chunk `index`. The last chunk of an animation is
/// filled up to a multiple of four bytes where it is shorter than the others;
/// every other chunk goes out as it is.
pub open spec fn padding_at(channel: UploadChannel, len: nat, index: int) -> nat {
    if channel == UploadChannel::Gif && index == len / 24 {
        ((4 - (len % 24) % 4) % 4) as nat
    } else {
        0
    }
}

/// What the checksum of a chunk frame covers: the number of the chunk, the chunk,
/// its padding, and the two bytes after it while they are still zero. That makes
/// a whole number of 32-bit words whenever chunk and padding do.
pub open spec fn checked_region(index: int, chunk: Seq<u8>, padding: nat) -> Seq<u8> {
    be16(index) + chunk + zeros(padding + 2)
}

/// The frame of one chunk: the number of bytes that follow the length byte, the
/// number of the chunk, the chunk, its padding, the checksum, and zeros up to the
/// end of the frame.
pub open spec fn chunk_frame(index: int, chunk: Seq<u8>, padding: nat, check: u32) -> Seq<u8> {
    let filled = seq![0u8, UPDATE_OPCODE, (2 + chunk.len() + 4 + padding) as u8] + be16(index)
        + chunk + zeros(padding) + be32(check as int);
    filled + zeros((33 - filled.len()) as nat)
}

/// The frame of chunk `index` of an upload.
pub open spec fn upload_chunk_frame(channel: UploadChannel, data: Seq<u8>, index: int) -> Seq<u8> {
    let chunk = chunk_at(data, index);
    let padding = padding_at(channel, data.len(), index);
    chunk_frame(index, chunk, padding, crc32_of(checked_region(index, chunk, padding)))
}

/// The frames of an upload: start, length, the chunks in order, end, reset.
pub open spec fn upload_script(channel: UploadChannel, data: Seq<u8>) -> Seq<Seq<u8>> {
    let chunks = chunk_count(data.len()) as int;
    Seq::new(
        (chunks + 4) as nat,
        |j: int|
            if j == 0 {
                command_frame(UPLOAD_START@, seq![channel.code()])
            } else if j == 1 {
                command_frame(UPLOAD_LENGTH@, be32(data.len() as int))
            } else if j < chunks + 2 {
                upload_chunk_frame(channel, data, j - 2)
            } else if j == chunks + 2 {
                command_frame(UPLOAD_END@, seq![1u8])
            } else {
                command_frame(RESET_SCREEN@, Seq::<u8>::empty())
            },
    )
}

/// An upload goes out as two frames that announce it, one frame for every 24
/// bytes or part of them, and two frames that close it. Every chunk frame
/// declares the bytes that follow its length byte: chunk number, chunk, padding
/// and checksum. Chunk and padding never pass 24 bytes.
pub proof fn lemma_upload_shape(channel: UploadChannel, data: Seq<u8>, index: int)
    requires
        0 <= index < chunk_count(data.len()),
    ensures
        upload_script(channel, data).len() == chunk_count(data.len()) + 4,
        chunk_at(data, index).len() == if index * 24 + 24 <= data.len() {
            24
        } else {
            data.len() - index * 24
        },
        1 <= chunk_at(data, index).len() <= 24,
        chunk_at(data, index).len() + padding_at(channel, data.len(), index) <= 24,
        upload_script(channel, data)[index + 2].len() == 33,
        upload_script(channel, data)[index + 2][2] == 6 + chunk_at(data, index).len() + padding_at(
            channel,
            data.len(),
            index,
        ),
{
}

/// In the upload of an animation every chunk, with its padding, is a whole
/// number of 32-bit words. Only the last chunk can need padding.
pub proof fn lemma_gif_chunks_aligned(data: Seq<u8>, index: int)
    requires
        0 <= index < chunk_count(data.len()),
    ensures
        (chunk_at(data, index).len() + padding_at(UploadChannel::Gif, data.len(), index)) % 4 == 0,
        index < chunk_count(data.len()) - 1 ==> padding_at(UploadChannel::Gif, data.len(), index)
            == 0,
{
}

/// A picture needs no padding: each of its 1513 chunks is a whole number of
/// 32-bit words as it is.
pub proof fn lemma_image_chunks_aligned(data: Seq<u8>, index: int)
    requires
        data.len() == IMAGE_LEN,
        0 <= index < chunk_count(data.len()),
    ensures
        chunk_count(data.len()) == 1513,
        padding_at(UploadChannel::Image, data.len(), index) == 0,
        chunk_at(data, index).len() % 4 == 0,
{
}

/// Lays out the frame of one chunk around a checksum that was computed before.
pub fn chunk_frame_with_check(index: u16, chunk: &[u8], padding: usize, check: u32) -> (buf: [u8; 33])
    requires
        chunk@.len() + padding <= CHUNK_LEN,
    ensures
        buf@ == chunk_frame(index as int, chunk@, padding as nat, check),
{
    let chunk_len: usize = chunk.len();
    let mut buf = [0u8; 33];
    buf[1] = UPDATE_OPCODE;
    buf[2] = (2 + chunk_len + 4 + padding) as u8;
    let index_high: u8 = (index >> 8) as u8;
    let index_low: u8 = (index & 255) as u8;
    assert(index_high == index / 256 && index_low == index % 256) by (bit_vector)
        requires
            index_high == (index >> 8) as u8,
            index_low == (index & 255) as u8,
    ;
    buf[3] = index_high;
    buf[4] = index_low;
    let mut i: usize = 0;
    while i < chunk_len
        invariant
            i <= chunk_len == chunk@.len() <= CHUNK_LEN,
            buf@[0] == 0,
            buf@[1] == UPDATE_OPCODE,
            buf@[2] == (2 + chunk_len + 4 + padding) as u8,
            buf@[3] == index_high,
            buf@[4] == index_low,
            forall|j: int| 5 <= j < 5 + i ==> buf@[j] == chunk@[j - 5],
            forall|j: int| 5 + i <= j < 33 ==> buf@[j] == 0,
        decreases chunk_len - i,
    {
        buf[5 + i] = chunk[i];
        i += 1;
    }
    let offset: usize = 3 + 2 + chunk_len + padding;
    let crc = check.to_bytes();
    buf[offset] = crc[0];
    buf[offset + 1] = crc[1];
    buf[offset + 2] = crc[2];
    buf[offset + 3] = crc[3];
    assert(buf@ =~= chunk_frame(index as int, chunk@, padding as nat, check));
    buf
}

/// Builds the frame of one chunk: computes the checksum over the number of the
/// chunk, the chunk, its padding and two zero bytes, and lays the frame out.
pub fn upload_chunk(index: u16, chunk: &[u8], padding: usize) -> (buf: [u8; 33])
    requires
        chunk@.len() + padding <= CHUNK_LEN,
    ensures
        buf@ == chunk_frame(
            index as int,
            chunk@,
            padding as nat,
            crc32_of(checked_region(index as int, chunk@, padding as nat)),
        ),
{
    let index_high: u8 = (index >> 8) as u8;
    let index_low: u8 = (index & 255) as u8;
    assert(index_high == index / 256 && index_low == index % 256) by (bit_vector)
        requires
            index_high == (index >> 8) as u8,
            index_low == (index & 255) as u8,
    ;
    let mut region: Vec<u8> = Vec::new();
    region.push(index_high);
    region.push(index_low);
    region.extend_from_slice(chunk);
    let mut filled: usize = 0;
    while filled < padding + 2
        invariant
            filled <= padding + 2,
            padding <= CHUNK_LEN,
            region@ == be16(index as int) + chunk@ + zeros(filled as nat),
        decreases padding + 2 - filled,
    {
        region.push(0);
        assert(zeros(filled as nat).push(0u8) =~= zeros((filled + 1) as nat));
        filled += 1;
    }
    let check = crc32(region.as_slice());
    chunk_frame_with_check(index, chunk, padding, check)
}

/// The longest upload whose chunks can all be numbered with 16 bits.
pub const MAX_UPLOAD: usize = 1572864;

/// How many zero bytes follow chunk `index` of an upload of `len` bytes.
pub fn padding_for(channel: UploadChannel, len: usize, index: usize) -> (padding: usize)
    ensures
        padding == padding_at(channel, len as nat, index as int),
        padding <= 3,
{
    if channel == UploadChannel::Gif && index == len / CHUNK_LEN {
        (4 - (len % CHUNK_LEN) % 4) % 4
    } else {
        0
    }
}

/// Builds the frames of an upload, in the order in which they go out.
pub fn upload_frames(channel: UploadChannel, data: &[u8]) -> (frames: Vec<[u8; 33]>)
    requires
        data@.len() <= MAX_UPLOAD,
    ensures
        frames_of(frames@) == upload_script(channel, data@),
        frames@.len() == chunk_count(data@.len()) + 4,
{
    let len: usize = data.len();
    let chunks: usize = (len + (CHUNK_LEN - 1)) / CHUNK_LEN;
    let ghost script = upload_script(channel, data@);
    let mut frames: Vec<[u8; 33]> = Vec::new();
    frames.push(upload_start(channel));
    frames.push(upload_length(len as u32));
    assert(frames@[0]@ == script[0]);
    assert(frames@[1]@ == script[1]);
    let mut index: usize = 0;
    while index < chunks
        invariant
            index <= chunks,
            chunks == chunk_count(data@.len()),
            len == data@.len(),
            len <= MAX_UPLOAD,
            script == upload_script(channel, data@),
            frames@.len() == index + 2,
            forall|j: int| 0 <= j < frames@.len() ==> (#[trigger] frames@[j])@ == script[j],
        decreases chunks - index,
    {
        let start: usize = index * CHUNK_LEN;
        let end: usize = if start + CHUNK_LEN <= len {
            start + CHUNK_LEN
        } else {
            len
        };
        let chunk = slice_subrange(data, start, end);
        let padding = padding_for(channel, len, index);
        assert(chunk@ == chunk_at(data@, index as int));
        let frame = upload_chunk(index as u16, chunk, padding);
        assert(frame@ == script[index + 2]);
        frames.push(frame);
        index += 1;
    }
    frames.push(upload_end());
    assert(frames@[chunks + 2]@ == script[chunks + 2]);
    frames.push(reset_screen());
    assert(frames@[chunks + 3]@ == script[chunks + 3]);
    assert(frames_of(frames@) =~= script);
    frames
}

} // verus!

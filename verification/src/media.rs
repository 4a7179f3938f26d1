//! The pixels of a picture as the screen stores them, and the cut that brings a
//! picture to the shape of the screen.
//!
//! A pixel takes three bytes: red, green and blue packed into sixteen bits, high
//! byte first, and an alpha byte that is always `0xff`. A picture of 110 by 110
//! pixels is 36300 bytes long.

use crate::float::be16;
use vstd::prelude::*;

verus! {

/// The byte that closes every pixel.
pub const OPAQUE: u8 = 0xff;

/// A colour in sixteen bits: five for red, six for green, five for blue, red on
/// top. Each channel is scaled down so that its full range is kept.
pub open spec fn rgb565_of(r: u8, g: u8, b: u8) -> int {
    ((r + 1) * 31 / 255) * 2048 + ((g + 1) * 63 / 255) * 32 + (b + 1) * 31 / 255
}

/// The three bytes of a pixel.
pub open spec fn pixel_of(r: u8, g: u8, b: u8) -> Seq<u8> {
    be16(rgb565_of(r, g, b)).push(OPAQUE)
}

/// Calls `rgb565::Rgb565::from_rgb888_components` and, on what it returns,
/// `to_rgb565_be`. The first scales red and blue to five bits and green to six
/// as `(channel + 1) * max / 255`, rounded down, and packs them with red in the
/// highest bits; the second writes the sixteen bits high byte first.
#[verifier::external_body]
fn rgb565_be(r: u8, g: u8, b: u8) -> (bytes: [u8; 2])
    ensures
        bytes@ == be16(rgb565_of(r, g, b)),
{
    rgb565::Rgb565::from_rgb888_components(r, g, b).to_rgb565_be()
}

/// Encodes one pixel.
pub fn encode_pixel(r: u8, g: u8, b: u8) -> (pixel: [u8; 3])
    ensures
        pixel@ == pixel_of(r, g, b),
{
    let packed = rgb565_be(r, g, b);
    let pixel: [u8; 3] = [packed[0], packed[1], OPAQUE];
    assert(pixel@ =~= pixel_of(r, g, b));
    pixel
}

/// The bytes of a picture whose pixels are given as red, green and blue, one
/// after the other.
#[verifier::opaque]
pub open spec fn picture_of(rgb: Seq<u8>) -> Seq<u8>
    recommends
        rgb.len() % 3 == 0,
{
    Seq::new(
        rgb.len(),
        |i: int|
            {
                let first = i - i % 3;
                pixel_of(rgb[first], rgb[first + 1], rgb[first + 2])[i % 3]
            },
    )
}

/// A picture is as long as its pixels, and the three bytes that start at a
/// multiple of three are the encoding of the colour that starts there.
pub proof fn lemma_picture_pixel(rgb: Seq<u8>, first: int)
    requires
        0 <= first,
        first % 3 == 0,
        first + 3 <= rgb.len(),
    ensures
        picture_of(rgb).len() == rgb.len(),
        picture_of(rgb).subrange(first, first + 3) == pixel_of(
            rgb[first],
            rgb[first + 1],
            rgb[first + 2],
        ),
{
    reveal(picture_of);
    let pixel = pixel_of(rgb[first], rgb[first + 1], rgb[first + 2]);
    assert((first + 1) % 3 == 1 && (first + 2) % 3 == 2);
    assert(picture_of(rgb)[first] == pixel[0]);
    assert(picture_of(rgb)[first + 1] == pixel[1]);
    assert(picture_of(rgb)[first + 2] == pixel[2]);
    assert(picture_of(rgb).subrange(first, first + 3) =~= pixel);
}

/// Encodes a picture. The pixels are given as red, green and blue, one after the
/// other, with the colours already mixed against black by their alpha.
pub fn encode_pixels(rgb: &[u8]) -> (picture: Vec<u8>)
    requires
        rgb@.len() % 3 == 0,
    ensures
        picture@ == picture_of(rgb@),
        picture@.len() == rgb@.len(),
{
    let mut picture: Vec<u8> = Vec::new();
    let mut i: usize = 0;
    proof {
        reveal(picture_of);
    }
    while i < rgb.len()
        invariant
            i <= rgb@.len(),
            i % 3 == 0,
            rgb@.len() % 3 == 0,
            picture@.len() == i,
            picture_of(rgb@).len() == rgb@.len(),
            picture@ == picture_of(rgb@).take(i as int),
        decreases rgb@.len() - i,
    {
        let ghost done = picture@;
        let pixel = encode_pixel(rgb[i], rgb[i + 1], rgb[i + 2]);
        picture.push(pixel[0]);
        picture.push(pixel[1]);
        picture.push(pixel[2]);
        proof {
            let whole = picture_of(rgb@);
            lemma_picture_pixel(rgb@, i as int);
            assert(picture@ =~= done + pixel@);
            assert(whole.take(i + 3) =~= whole.take(i as int) + whole.subrange(i as int, i + 3));
        }
        i += 3;
    }
    assert(picture_of(rgb@).take(i as int) =~= picture_of(rgb@));
    picture
}

/// Where to cut a picture of `iwidth` by `iheight` pixels so that the middle of
/// it, `nwidth` by `nheight` pixels, is left: the left and the top of the cut.
/// A picture that is too tall for its width loses rows above and below, any
/// other picture columns left and right.
pub open spec fn crop_origin_of(iwidth: u32, iheight: u32, nwidth: u32, nheight: u32) -> (
    int,
    int,
) {
    if nwidth * iheight > iwidth * nheight {
        (0, (iheight - nheight) / 2)
    } else {
        ((iwidth - nwidth) / 2, 0)
    }
}

/// Finds where to cut a picture that was scaled to cover the screen, so that
/// what is left has the size of the screen and comes from the middle.
pub fn crop_origin(iwidth: u32, iheight: u32, nwidth: u32, nheight: u32) -> (origin: (u32, u32))
    requires
        nwidth <= iwidth,
        nheight <= iheight,
    ensures
        origin.0 == crop_origin_of(iwidth, iheight, nwidth, nheight).0,
        origin.1 == crop_origin_of(iwidth, iheight, nwidth, nheight).1,
        origin.0 + nwidth <= iwidth,
        origin.1 + nheight <= iheight,
{
    assert(iwidth * nheight <= 0xffff_ffff * 0xffff_ffff && nwidth * iheight <= 0xffff_ffff
        * 0xffff_ffff) by (nonlinear_arith)
        requires
            iwidth <= 0xffff_ffff,
            nheight <= 0xffff_ffff,
            nwidth <= 0xffff_ffff,
            iheight <= 0xffff_ffff,
    ;
    let ratio: u64 = iwidth as u64 * nheight as u64;
    let nratio: u64 = nwidth as u64 * iheight as u64;
    if nratio > ratio {
        (0, (iheight - nheight) / 2)
    } else {
        ((iwidth - nwidth) / 2, 0)
    }
}

} // verus!

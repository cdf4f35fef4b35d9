//! Sixel: the image reduced to a palette and sent as one device control
//! string. The encoding is the work of the `icy_sixel` crate.

use crate::decimal::decimal;
use crate::framing::ESC;
use crate::payload::{EncodeError, EncodedPayload};
use crate::raster::{RasterImage, RasterView};
use vstd::prelude::*;
use vstd::string::StringSliceAdditionalSpecFns;

verus! {

/// How a Sixel string for an image of the given size starts: the introducer
/// with square pixels and a transparent background, then the raster
/// attributes with the size in pixels.
pub open spec fn sixel_head(width: nat, height: nat) -> Seq<u8> {
    "\x1bP9;1;0q\"1;1;".spec_bytes() + decimal(width) + ";".spec_bytes() + decimal(height)
}

/// How every Sixel string ends: the string terminator.
pub open spec fn sixel_tail() -> Seq<u8> {
    "\x1b\\".spec_bytes()
}

/// Whether `text` is a single Sixel string for an image of the given size:
/// it starts as such a string does, ends with the terminator, and holds no
/// escape character in between that could end it early.
pub open spec fn sixel_framed(text: Seq<u8>, width: nat, height: nat) -> bool {
    let head = sixel_head(width, height);
    let tail = sixel_tail();
    &&& text.len() >= head.len() + tail.len()
    &&& text.subrange(0, head.len() as int) == head
    &&& text.subrange(text.len() - tail.len(), text.len() as int) == tail
    &&& forall|i: int| head.len() <= i < text.len() - tail.len() ==> text[i] != ESC
}

/// `sixel_encode` of the `icy_sixel` crate with its default options, whose
/// text is handed back as bytes. The crate quantizes in floating point, so
/// the contract claims nothing of the colours or the bands. It claims what
/// the crate writes around them whatever they are: the introducer, the
/// raster attributes with the size, and the terminator, with no escape
/// character in between. And it claims that a size without pixels is
/// refused, as the crate's check of the dimensions does.
#[verifier::external_body]
fn sixel_encode_rgba(pixels: &Vec<u8>, width: u32, height: u32) -> (text: Result<
    Vec<u8>,
    icy_sixel::SixelError,
>)
    ensures
        text matches Ok(bytes) ==> sixel_framed(bytes@, width as nat, height as nat),
        width == 0 || height == 0 ==> text is Err,
{
    let options = icy_sixel::EncodeOptions::default();
    let text = icy_sixel::sixel_encode(pixels, width as usize, height as usize, &options)?;
    Ok(text.into_bytes())
}

/// Turns what the Sixel encoder handed back into the encoder's outcome: the
/// text as the payload, or the error as the reason.
pub fn sixel_payload(text: Result<Vec<u8>, icy_sixel::SixelError>) -> (outcome: Result<
    EncodedPayload,
    EncodeError,
>)
    ensures
        match text {
            Ok(bytes) => outcome matches Ok(payload) && payload@ == bytes@,
            Err(error) => outcome matches Err(EncodeError::Sixel(reason)) && reason == error,
        },
{
    match text {
        Ok(bytes) => Ok(EncodedPayload { bytes }),
        Err(error) => Err(EncodeError::Sixel(error)),
    }
}

/// What encoding `image` as Sixel gives: a single Sixel string for an image
/// of its size, or the error of the encoder, which a bitmap without pixels
/// always gets.
pub open spec fn sixel_outcome(
    image: RasterView,
    outcome: Result<EncodedPayload, EncodeError>,
) -> bool {
    match outcome {
        Ok(payload) => {
            &&& sixel_framed(payload@, image.width, image.height)
            &&& image.width >= 1
            &&& image.height >= 1
        },
        Err(error) => error is Sixel,
    }
}

/// Encodes `image` as Sixel, in one string that ends itself.
pub fn encode_sixel(image: &RasterImage) -> (outcome: Result<EncodedPayload, EncodeError>)
    ensures
        sixel_outcome(image@, outcome),
{
    sixel_payload(sixel_encode_rgba(image.pixels(), image.width(), image.height()))
}

} // verus!

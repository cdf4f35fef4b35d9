//! The iTerm2 inline image protocol: the image as a PNG file in base64,
//! inside one control sequence.

use crate::base64::{
    base64,
    base64_decoded,
    decoded_len,
    encodable_len,
    encode_standard,
    lemma_base64_characters,
    lemma_base64_round_trip,
    lemma_decoded_len,
};
use crate::decimal::{decimal, lemma_decimal_digits, push_decimal};
use crate::framing::{
    is_printable,
    lemma_ascii_bytes,
    lemma_escape_then_printable,
    lemma_occurrences_concat,
    lemma_occurrences_single,
    lemma_printable_is_plain,
    occurrences,
    BEL,
    ESC,
};
use crate::payload::{EncodeError, EncodedPayload};
use crate::raster::{pixel_bytes, RasterImage, RasterView};
use vstd::prelude::*;
use vstd::string::StringSliceAdditionalSpecFns;

verus! {

/// The PNG file that the `image` crate writes for a bitmap of the given
/// size and channel values, or `None` where it refuses the bitmap.
pub uninterp spec fn png_encoding(pixels: Seq<u8>, width: nat, height: nat) -> Option<Seq<u8>>;

/// `ImageEncoder::write_image` of the `image` crate on a `PngEncoder` with
/// its default settings, for eight-bit RGBA, writing to memory. The contract
/// only gives the outcome a name: the file written, or none where the crate
/// reports an error. The crate panics unless there are four bytes for each
/// pixel, so other input is left out.
#[verifier::external_body]
fn encode_png(pixels: &Vec<u8>, width: u32, height: u32) -> (file: Result<
    Vec<u8>,
    image::ImageError,
>)
    requires
        pixels@.len() == pixel_bytes(width as nat, height as nat),
    ensures
        match file {
            Ok(bytes) => png_encoding(pixels@, width as nat, height as nat) == Some(bytes@),
            Err(_) => png_encoding(pixels@, width as nat, height as nat) is None,
        },
{
    let mut bytes: Vec<u8> = Vec::new();
    let encoder = image::codecs::png::PngEncoder::new(&mut bytes);
    let color = image::ExtendedColorType::Rgba8;
    image::ImageEncoder::write_image(encoder, pixels.as_slice(), width, height, color)?;
    Ok(bytes)
}

/// The control sequence that shows a file inline: the size of the file in
/// bytes and the size of the image in pixels as named parameters, then the
/// file in base64 as `payload`, closed by the bell character.
pub open spec fn inline_file_sequence(size: nat, width: nat, height: nat, payload: Seq<u8>) -> Seq<
    u8,
> {
    "\x1b]1337;File=inline=1;size=".spec_bytes() + decimal(size) + ";width=".spec_bytes()
        + decimal(width) + "px;height=".spec_bytes() + decimal(height)
        + "px;doNotMoveCursor=1:".spec_bytes() + payload + seq![7u8]
}

/// The control sequence that shows the PNG file `png` of an image of the
/// given size.
pub open spec fn iterm2_sequence(png: Seq<u8>, width: nat, height: nat) -> Seq<u8> {
    inline_file_sequence(png.len(), width, height, base64(png))
}

/// The size that the sequence declares is the number of bytes that its
/// payload decodes to, and what it decodes to is the file.
pub proof fn lemma_declared_size(png: Seq<u8>, width: nat, height: nat)
    ensures
        iterm2_sequence(png, width, height) == inline_file_sequence(
            decoded_len(base64(png)),
            width,
            height,
            base64(png),
        ),
        base64_decoded(base64(png)) == png,
{
    lemma_decoded_len(png);
    lemma_base64_round_trip(png);
}

/// The payload is exactly one control sequence, whatever the size of the
/// file: it opens with the escape character and a closing bracket, closes
/// with the bell, and holds no other escape character and no other bell.
pub proof fn lemma_one_sequence(png: Seq<u8>, width: nat, height: nat)
    ensures
        ({
            let one = iterm2_sequence(png, width, height);
            &&& one.len() >= 3
            &&& one[0] == ESC
            &&& one[1] == 93
            &&& one[one.len() - 1] == BEL
            &&& occurrences(one, ESC) == 1
            &&& occurrences(one, BEL) == 1
        }),
{
    let head = "\x1b]1337;File=inline=1;size=".spec_bytes();
    let w = ";width=".spec_bytes();
    let h = "px;height=".spec_bytes();
    let last = "px;doNotMoveCursor=1:".spec_bytes();
    let size = decimal(png.len());
    let payload = base64(png);
    let close = seq![BEL];
    reveal_strlit("\x1b]1337;File=inline=1;size=");
    reveal_strlit(";width=");
    reveal_strlit("px;height=");
    reveal_strlit("px;doNotMoveCursor=1:");
    lemma_ascii_bytes("\x1b]1337;File=inline=1;size=");
    lemma_ascii_bytes(";width=");
    lemma_ascii_bytes("px;height=");
    lemma_ascii_bytes("px;doNotMoveCursor=1:");
    lemma_escape_then_printable(head);
    assert(is_printable(w));
    assert(is_printable(h));
    assert(is_printable(last));
    lemma_decimal_digits(png.len());
    lemma_decimal_digits(width);
    lemma_decimal_digits(height);
    lemma_base64_characters(png);
    assert(is_printable(payload));
    lemma_printable_is_plain(w);
    lemma_printable_is_plain(h);
    lemma_printable_is_plain(last);
    lemma_printable_is_plain(size);
    lemma_printable_is_plain(decimal(width));
    lemma_printable_is_plain(decimal(height));
    lemma_printable_is_plain(payload);
    lemma_occurrences_single(BEL, BEL);
    lemma_occurrences_single(BEL, ESC);
    let s1 = head + size;
    let s2 = s1 + w;
    let s3 = s2 + decimal(width);
    let s4 = s3 + h;
    let s5 = s4 + decimal(height);
    let s6 = s5 + last;
    let s7 = s6 + payload;
    lemma_occurrences_concat(head, size, ESC);
    lemma_occurrences_concat(s1, w, ESC);
    lemma_occurrences_concat(s2, decimal(width), ESC);
    lemma_occurrences_concat(s3, h, ESC);
    lemma_occurrences_concat(s4, decimal(height), ESC);
    lemma_occurrences_concat(s5, last, ESC);
    lemma_occurrences_concat(s6, payload, ESC);
    lemma_occurrences_concat(s7, close, ESC);
    lemma_occurrences_concat(head, size, BEL);
    lemma_occurrences_concat(s1, w, BEL);
    lemma_occurrences_concat(s2, decimal(width), BEL);
    lemma_occurrences_concat(s3, h, BEL);
    lemma_occurrences_concat(s4, decimal(height), BEL);
    lemma_occurrences_concat(s5, last, BEL);
    lemma_occurrences_concat(s6, payload, BEL);
    lemma_occurrences_concat(s7, close, BEL);
}

/// What encoding `image` for iTerm2 gives: the sequence for its PNG file;
/// an error where the file cannot be made, or is too long to be put in
/// base64 on this machine.
pub open spec fn iterm2_outcome(
    image: RasterView,
    outcome: Result<EncodedPayload, EncodeError>,
) -> bool {
    match png_encoding(image.pixels, image.width, image.height) {
        Some(png) => {
            if encodable_len(png.len()) {
                outcome matches Ok(payload) && payload@ == iterm2_sequence(
                    png,
                    image.width,
                    image.height,
                )
            } else {
                outcome matches Err(EncodeError::TooLarge)
            }
        },
        None => outcome matches Err(EncodeError::Png(_)),
    }
}

/// Whether the base64 text of `len` bytes has a length that fits in `usize`.
pub fn is_encodable_len(len: usize) -> (fits: bool)
    ensures
        fits == encodable_len(len as nat),
{
    let groups = if len % 3 == 0 {
        len / 3
    } else {
        len / 3 + 1
    };
    groups <= usize::MAX / 4
}

/// Wraps a PNG file of an image of the given size in the control sequence.
pub fn wrap_png(png: &Vec<u8>, width: u32, height: u32) -> (outcome: Result<
    EncodedPayload,
    EncodeError,
>)
    ensures
        match outcome {
            Ok(payload) => encodable_len(png@.len()) && payload@ == iterm2_sequence(
                png@,
                width as nat,
                height as nat,
            ),
            Err(error) => !encodable_len(png@.len()) && error is TooLarge,
        },
{
    if !is_encodable_len(png.len()) {
        return Err(EncodeError::TooLarge);
    }
    let mut out: Vec<u8> = Vec::new();
    out.extend_from_slice("\x1b]1337;File=inline=1;size=".as_bytes());
    push_decimal(&mut out, png.len() as u64);
    out.extend_from_slice(";width=".as_bytes());
    push_decimal(&mut out, width as u64);
    out.extend_from_slice("px;height=".as_bytes());
    push_decimal(&mut out, height as u64);
    out.extend_from_slice("px;doNotMoveCursor=1:".as_bytes());
    let mut text = encode_standard(png.as_slice());
    out.append(&mut text);
    out.push(7);
    Ok(EncodedPayload { bytes: out })
}

/// Encodes `image` for iTerm2: compressed to PNG, put in base64 and wrapped
/// in a single control sequence, whatever the size of the image.
pub fn encode_iterm2(image: &RasterImage) -> (outcome: Result<EncodedPayload, EncodeError>)
    ensures
        iterm2_outcome(image@, outcome),
{
    match encode_png(image.pixels(), image.width(), image.height()) {
        Ok(png) => wrap_png(&png, image.width(), image.height()),
        Err(error) => Err(EncodeError::Png(error)),
    }
}

} // verus!

//! What an encoder hands back: the bytes for the terminal, or the reason why
//! there are none.
//!
//! The contracts of the encoders write the fixed parts of a control sequence
//! as text, `"...".spec_bytes()`: the bytes of the text in UTF-8, which for
//! the ASCII characters used there are the codes of the characters.

use vstd::prelude::*;

verus! {

/// The error type of the `image` crate, carried through as it is.
#[verifier::external_type_specification]
#[verifier::external_body]
pub struct ExImageError(image::ImageError);

/// The error type of the `icy_sixel` crate, carried through as it is.
#[verifier::external_type_specification]
#[verifier::external_body]
pub struct ExSixelError(icy_sixel::SixelError);

/// The bytes that make the terminal show an image. They are written to the
/// terminal as they are, in order, and the stream is then flushed.
#[derive(Debug)]
pub struct EncodedPayload {
    pub bytes: Vec<u8>,
}

impl View for EncodedPayload {
    type V = Seq<u8>;

    open spec fn view(&self) -> Seq<u8> {
        self.bytes@
    }
}

/// Why an encoder produced no payload.
#[derive(Debug)]
pub enum EncodeError {
    /// The bitmap could not be compressed to PNG.
    Png(image::ImageError),
    /// The bitmap could not be encoded as Sixel.
    Sixel(icy_sixel::SixelError),
    /// The payload would be longer than this machine can address.
    TooLarge,
    /// There is no protocol to encode for.
    Unsupported,
}

} // verus!

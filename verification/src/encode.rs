//! The encoders behind one interface, selected by the protocol.

use crate::detect::ProtocolKind;
use crate::iterm2::{encode_iterm2, iterm2_outcome};
use crate::kitty::{encode_kitty, kitty_stream, CHUNK_SIZE};
use crate::payload::{EncodeError, EncodedPayload};
use crate::raster::{RasterImage, RasterView};
use crate::sixel::{encode_sixel, sixel_outcome};
use vstd::prelude::*;

verus! {

/// What encoding `image` for the protocol `kind` gives. Each protocol has
/// its own encoder; where there is no protocol there is none, and that is
/// the error.
pub open spec fn encode_outcome(
    kind: ProtocolKind,
    image: RasterView,
    outcome: Result<EncodedPayload, EncodeError>,
) -> bool {
    match kind {
        ProtocolKind::ITerm2 => iterm2_outcome(image, outcome),
        ProtocolKind::Kitty => outcome matches Ok(payload) && payload@ == kitty_stream(
            image,
            CHUNK_SIZE as nat,
        ),
        ProtocolKind::Sixel => sixel_outcome(image, outcome),
        ProtocolKind::Unsupported => outcome matches Err(EncodeError::Unsupported),
    }
}

/// Encodes `image` with the encoder of the protocol `kind`.
pub fn encode(kind: ProtocolKind, image: &RasterImage) -> (outcome: Result<
    EncodedPayload,
    EncodeError,
>)
    ensures
        encode_outcome(kind, image@, outcome),
{
    match kind {
        ProtocolKind::ITerm2 => encode_iterm2(image),
        ProtocolKind::Kitty => Ok(encode_kitty(image)),
        ProtocolKind::Sixel => encode_sixel(image),
        ProtocolKind::Unsupported => Err(EncodeError::Unsupported),
    }
}

} // verus!

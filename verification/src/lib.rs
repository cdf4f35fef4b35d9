//! Terminal graphics negotiation: protocol detection, image sizing and
//! escape-sequence encoding for inline images.

pub mod base64;
pub mod decimal;
pub mod detect;
pub mod dispatch;
pub mod encode;
pub mod filters;
pub mod framing;
pub mod html;
pub mod iterm2;
pub mod kitty;
pub mod payload;
pub mod prepare;
pub mod raster;
pub mod sixel;
pub mod text;

//! Decoded bitmaps and the geometry of the terminal they are shown in.

use vstd::prelude::*;

verus! {

/// A bitmap as plain values: its size in pixels and its channel values, row
/// by row, four per pixel in the order red, green, blue, alpha.
pub struct RasterView {
    pub width: nat,
    pub height: nat,
    pub pixels: Seq<u8>,
}

/// An owned, decoded bitmap with eight bits per channel. It always holds
/// four bytes for each of its pixels, and it is never changed once made.
#[derive(Debug)]
pub struct RasterImage {
    width: u32,
    height: u32,
    pixels: Vec<u8>,
}

impl View for RasterImage {
    type V = RasterView;

    closed spec fn view(&self) -> RasterView {
        RasterView { width: self.width as nat, height: self.height as nat, pixels: self.pixels@ }
    }
}

/// The number of bytes that a bitmap of the given size holds.
pub open spec fn pixel_bytes(width: nat, height: nat) -> nat {
    4 * width * height
}

impl RasterImage {
    #[verifier::type_invariant]
    spec fn well_formed(&self) -> bool {
        self.pixels@.len() == pixel_bytes(self.width as nat, self.height as nat)
    }

    /// Makes a bitmap of the given size from its channel values, if there
    /// are exactly four of them for each pixel.
    pub fn new(width: u32, height: u32, pixels: Vec<u8>) -> (image: Option<RasterImage>)
        ensures
            image is Some <==> pixels@.len() == pixel_bytes(width as nat, height as nat),
            image matches Some(made) ==> made@ == (RasterView {
                width: width as nat,
                height: height as nat,
                pixels: pixels@,
            }),
    {
        assert((width as nat) * (height as nat) <= 0xffff_ffff * 0xffff_ffff) by (nonlinear_arith)
            requires
                width <= 0xffff_ffff,
                height <= 0xffff_ffff,
        ;
        let area: u64 = width as u64 * height as u64;
        assert(pixel_bytes(width as nat, height as nat) == 4 * area) by (nonlinear_arith)
            requires
                area == (width as nat) * (height as nat),
                pixel_bytes(width as nat, height as nat) == 4 * (width as nat) * (height as nat),
        ;
        let len = pixels.len() as u128;
        if len == 4 * (area as u128) {
            Some(RasterImage { width, height, pixels })
        } else {
            None
        }
    }

    /// The width in pixels.
    pub fn width(&self) -> (width: u32)
        ensures
            width == self@.width,
    {
        self.width
    }

    /// The height in pixels.
    pub fn height(&self) -> (height: u32)
        ensures
            height == self@.height,
    {
        self.height
    }

    /// The channel values, four for each pixel.
    pub fn pixels(&self) -> (pixels: &Vec<u8>)
        ensures
            pixels@ == self@.pixels,
            pixels@.len() == pixel_bytes(self@.width, self@.height),
    {
        proof {
            use_type_invariant(self);
        }
        &self.pixels
    }

    /// Whether the bitmap has no pixel at all.
    pub fn is_empty(&self) -> (empty: bool)
        ensures
            empty == (self@.width == 0 || self@.height == 0),
    {
        self.width == 0 || self.height == 0
    }

    /// Gives up the bitmap for its channel values.
    pub fn into_pixels(self) -> (pixels: Vec<u8>)
        ensures
            pixels@ == self@.pixels,
            pixels@.len() == pixel_bytes(self@.width, self@.height),
    {
        proof {
            use_type_invariant(&self);
        }
        self.pixels
    }
}

/// The width of a character cell in pixels that is assumed where the
/// terminal does not tell.
pub const ASSUMED_CELL_PX_WIDTH: u16 = 8;

/// The height of a character cell in pixels that is assumed where the
/// terminal does not tell.
pub const ASSUMED_CELL_PX_HEIGHT: u16 = 16;

/// The size of the terminal in character cells, and the size of one cell in
/// pixels, measured or assumed.
#[derive(Clone, Copy, Debug, PartialEq, Eq, Structural)]
pub struct TerminalGeometry {
    pub cols: u16,
    pub rows: u16,
    pub cell_px_width: u16,
    pub cell_px_height: u16,
}

impl TerminalGeometry {
    /// The width of the terminal in pixels.
    pub open spec fn spec_pixel_width(&self) -> nat {
        (self.cols as nat) * (self.cell_px_width as nat)
    }

    /// The height of the terminal in pixels.
    pub open spec fn spec_pixel_height(&self) -> nat {
        (self.rows as nat) * (self.cell_px_height as nat)
    }

    /// A terminal of the given size in cells whose cells are taken to have
    /// the assumed size.
    pub fn assumed(cols: u16, rows: u16) -> (geometry: TerminalGeometry)
        ensures
            geometry == (TerminalGeometry {
                cols,
                rows,
                cell_px_width: ASSUMED_CELL_PX_WIDTH,
                cell_px_height: ASSUMED_CELL_PX_HEIGHT,
            }),
    {
        TerminalGeometry {
            cols,
            rows,
            cell_px_width: ASSUMED_CELL_PX_WIDTH,
            cell_px_height: ASSUMED_CELL_PX_HEIGHT,
        }
    }

    /// The width of the terminal in pixels.
    pub fn pixel_width(&self) -> (width: u32)
        ensures
            width == self.spec_pixel_width(),
    {
        assert((self.cols as nat) * (self.cell_px_width as nat) <= 0xffff * 0xffff)
            by (nonlinear_arith)
            requires
                self.cols <= 0xffff,
                self.cell_px_width <= 0xffff,
        ;
        self.cols as u32 * self.cell_px_width as u32
    }

    /// The height of the terminal in pixels.
    pub fn pixel_height(&self) -> (height: u32)
        ensures
            height == self.spec_pixel_height(),
    {
        assert((self.rows as nat) * (self.cell_px_height as nat) <= 0xffff * 0xffff)
            by (nonlinear_arith)
            requires
                self.rows <= 0xffff,
                self.cell_px_height <= 0xffff,
        ;
        self.rows as u32 * self.cell_px_height as u32
    }
}

} // verus!

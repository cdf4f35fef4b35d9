//! Image preparation: a bitmap is made to fit the terminal, and never made
//! larger than it is.

use crate::raster::{pixel_bytes, RasterImage, RasterView, TerminalGeometry};
use vstd::prelude::*;

verus! {

/// Whether a bitmap of `width` by `height` pixels fits an area of
/// `area_width` by `area_height` pixels.
pub open spec fn fits(width: nat, height: nat, area_width: nat, area_height: nat) -> bool {
    width <= area_width && height <= area_height
}

/// The larger of `n` and one.
pub open spec fn at_least_one(n: nat) -> nat {
    if n < 1 {
        1
    } else {
        n
    }
}

/// The size that a bitmap of `width` by `height` pixels is given for an area
/// of `area_width` by `area_height` pixels.
///
/// A bitmap that fits, or that has no pixel, keeps its size. Any other is
/// scaled by the smaller of `area_width / width` and `area_height / height`,
/// each side rounded down, and no side below one pixel.
pub open spec fn target_size(width: nat, height: nat, area_width: nat, area_height: nat) -> (
    nat,
    nat,
) {
    if width == 0 || height == 0 || fits(width, height, area_width, area_height) {
        (width, height)
    } else if area_width * height <= area_height * width {
        (at_least_one(area_width), at_least_one(height * area_width / width))
    } else {
        (at_least_one(width * area_height / height), at_least_one(area_height))
    }
}

/// The distance between two numbers.
pub open spec fn distance(a: nat, b: nat) -> nat {
    if a <= b {
        (b - a) as nat
    } else {
        (a - b) as nat
    }
}

/// A bitmap that fits the area keeps its size.
pub proof fn lemma_fitting_size_is_kept(width: nat, height: nat, area_width: nat, area_height: nat)
    requires
        fits(width, height, area_width, area_height),
    ensures
        target_size(width, height, area_width, area_height) == (width, height),
{
}

/// No side ever grows, whatever the area is.
pub proof fn lemma_never_upscaled(width: nat, height: nat, area_width: nat, area_height: nat)
    ensures
        target_size(width, height, area_width, area_height).0 <= width,
        target_size(width, height, area_width, area_height).1 <= height,
{
    if width == 0 || height == 0 || fits(width, height, area_width, area_height) {
    } else if area_width * height <= area_height * width {
        lemma_scaled_side(height, area_width, width, area_height);
    } else {
        lemma_scaled_side(width, area_height, height, area_width);
    }
}

/// Where `side` is scaled by `area / other` and that is the smaller of the
/// two ratios, below one, the scaled side is neither longer than `side` nor
/// than `other_area`, and the area's own side is shorter than `other`.
proof fn lemma_scaled_side(side: nat, area: nat, other: nat, other_area: nat)
    requires
        side >= 1,
        other >= 1,
        area * side <= other_area * other,
        !(other <= area && side <= other_area),
    ensures
        area < other,
        side * area / other <= side,
        side * area / other <= other_area,
        side * area / other < side || side * area / other == 0,
        side * area - (side * area / other) * other < other,
        (side * area / other) * other <= side * area,
{
    assert(area < other) by (nonlinear_arith)
        requires
            side >= 1,
            other >= 1,
            area * side <= other_area * other,
            !(other <= area && side <= other_area),
    ;
    let product = side * area;
    let scaled = product / other;
    let rest = product % other;
    vstd::arithmetic::div_mod::lemma_fundamental_div_mod(product as int, other as int);
    vstd::arithmetic::div_mod::lemma_mod_bound(product as int, other as int);
    assert(scaled * other == other * scaled) by (nonlinear_arith);
    assert(product == scaled * other + rest);
    assert(scaled <= side && (scaled < side || scaled == 0)) by (nonlinear_arith)
        requires
            scaled * other <= side * area,
            area < other,
            side >= 1,
            scaled >= 0,
    ;
    assert(scaled <= other_area) by (nonlinear_arith)
        requires
            scaled * other <= side * area,
            area * side <= other_area * other,
            other >= 1,
            scaled >= 0,
    ;
}

/// A bitmap that exceeds the area is given a size that exceeds neither the
/// bitmap nor the area, and that keeps the proportions to within a pixel:
/// one side differs by less than a pixel from where the exact scale of the
/// other would put it.
///
/// This asks for a bitmap and an area with at least one pixel each way.
/// Without a pixel to start from there is no proportion, and no bitmap fits
/// an area without pixels.
pub proof fn lemma_target_size_bounds(width: nat, height: nat, area_width: nat, area_height: nat)
    requires
        width >= 1,
        height >= 1,
        area_width >= 1,
        area_height >= 1,
        !fits(width, height, area_width, area_height),
    ensures
        ({
            let (new_width, new_height) = target_size(width, height, area_width, area_height);
            &&& 1 <= new_width <= width
            &&& 1 <= new_height <= height
            &&& new_width <= area_width
            &&& new_height <= area_height
            &&& (new_width < width || new_height < height)
            &&& (distance(new_height * width, height * new_width) < width || distance(
                new_width * height,
                width * new_height,
            ) < height)
        }),
{
    if area_width * height <= area_height * width {
        lemma_scaled_side(height, area_width, width, area_height);
        let scaled = height * area_width / width;
        if scaled == 0 {
            assert(height * area_width >= 1) by (nonlinear_arith)
                requires
                    height >= 1,
                    area_width >= 1,
            ;
            assert(1 * width == width) by (nonlinear_arith);
        }
    } else {
        lemma_scaled_side(width, area_height, height, area_width);
        let scaled = width * area_height / height;
        if scaled == 0 {
            assert(width * area_height >= 1) by (nonlinear_arith)
                requires
                    width >= 1,
                    area_height >= 1,
            ;
            assert(1 * height == height) by (nonlinear_arith);
        }
    }
}

/// Computes the size that a bitmap is given for an area.
pub fn compute_target_size(width: u32, height: u32, area_width: u32, area_height: u32) -> (size: (
    u32,
    u32,
))
    ensures
        (size.0 as nat, size.1 as nat) == target_size(
            width as nat,
            height as nat,
            area_width as nat,
            area_height as nat,
        ),
{
    if width == 0 || height == 0 || (width <= area_width && height <= area_height) {
        return (width, height);
    }
    proof {
        lemma_never_upscaled(width as nat, height as nat, area_width as nat, area_height as nat);
        assert((area_width as nat) * (height as nat) <= 0xffff_ffff * 0xffff_ffff)
            by (nonlinear_arith)
            requires
                area_width <= 0xffff_ffff,
                height <= 0xffff_ffff,
        ;
        assert((area_height as nat) * (width as nat) <= 0xffff_ffff * 0xffff_ffff)
            by (nonlinear_arith)
            requires
                area_height <= 0xffff_ffff,
                width <= 0xffff_ffff,
        ;
    }
    let by_width: u64 = area_width as u64 * height as u64;
    let by_height: u64 = area_height as u64 * width as u64;
    if by_width <= by_height {
        proof {
            assert(height as nat * area_width as nat == area_width as nat * height as nat)
                by (nonlinear_arith);
        }
        let scaled: u64 = by_width / (width as u64);
        (keep_one_pixel(area_width), keep_one_pixel(scaled as u32))
    } else {
        proof {
            assert(width as nat * area_height as nat == area_height as nat * width as nat)
                by (nonlinear_arith);
        }
        let scaled: u64 = by_height / (height as u64);
        (keep_one_pixel(scaled as u32), keep_one_pixel(area_height))
    }
}

/// The larger of `n` and one.
fn keep_one_pixel(n: u32) -> (kept: u32)
    ensures
        kept == at_least_one(n as nat),
{
    if n < 1 {
        1
    } else {
        n
    }
}

/// `imageops::resize` of the `image` crate with its `Lanczos3` filter, on a
/// bitmap made by `ImageBuffer::from_raw` and handed back by `into_raw`. The
/// filter computes in floating point, so the contract claims nothing of the
/// pixel values: only that the result holds four bytes for each pixel of the
/// new size. `from_raw` needs as many bytes as the size asks for; the call is
/// made for a bitmap with pixels that is not to grow.
#[verifier::external_body]
fn resample_lanczos3(
    pixels: Vec<u8>,
    width: u32,
    height: u32,
    new_width: u32,
    new_height: u32,
) -> (resampled: Vec<u8>)
    requires
        pixels@.len() == pixel_bytes(width as nat, height as nat),
        1 <= new_width <= width,
        1 <= new_height <= height,
    ensures
        resampled@.len() == pixel_bytes(new_width as nat, new_height as nat),
{
    let source = image::RgbaImage::from_raw(width, height, pixels).unwrap();
    let filter = image::imageops::FilterType::Lanczos3;
    image::imageops::resize(&source, new_width, new_height, filter).into_raw()
}

/// The size that `image` is given in a terminal of `geometry`: its own
/// where the geometry is unknown.
pub open spec fn prepared_size(image: RasterView, geometry: Option<TerminalGeometry>) -> (
    nat,
    nat,
) {
    match geometry {
        Some(known) => target_size(
            image.width,
            image.height,
            known.spec_pixel_width(),
            known.spec_pixel_height(),
        ),
        None => (image.width, image.height),
    }
}

/// Whether `prepared` is `image` sized for a terminal of `geometry`: it has
/// the size that `prepared_size` gives, and where that is the size of
/// `image` it is `image` itself, pixel for pixel.
pub open spec fn is_prepared(
    image: RasterView,
    geometry: Option<TerminalGeometry>,
    prepared: RasterView,
) -> bool {
    &&& (prepared.width, prepared.height) == prepared_size(image, geometry)
    &&& prepared_size(image, geometry) == (image.width, image.height) ==> prepared == image
}

/// What is handed to an encoder is never larger than the source, whatever
/// the terminal, and where bitmap and terminal have pixels it fits the
/// terminal.
pub proof fn lemma_prepared_bounds(
    image: RasterView,
    geometry: Option<TerminalGeometry>,
    prepared: RasterView,
)
    requires
        is_prepared(image, geometry, prepared),
    ensures
        prepared.width <= image.width,
        prepared.height <= image.height,
        geometry matches Some(known) ==> (has_pixels(image, known) ==> fits(
            prepared.width,
            prepared.height,
            known.spec_pixel_width(),
            known.spec_pixel_height(),
        )),
{
    if let Some(known) = geometry {
        let area_width = known.spec_pixel_width();
        let area_height = known.spec_pixel_height();
        lemma_never_upscaled(image.width, image.height, area_width, area_height);
        if has_pixels(image, known) && !fits(image.width, image.height, area_width, area_height) {
            lemma_target_size_bounds(image.width, image.height, area_width, area_height);
        }
    }
}

/// Whether a bitmap and a terminal have at least one pixel each way.
pub open spec fn has_pixels(image: RasterView, geometry: TerminalGeometry) -> bool {
    &&& image.width >= 1
    &&& image.height >= 1
    &&& geometry.spec_pixel_width() >= 1
    &&& geometry.spec_pixel_height() >= 1
}

/// Sizes `image` for the terminal.
///
/// The result keeps the size and the pixels of `image` with an unknown
/// geometry, with a bitmap that fits, and with one that has no pixel.
/// Otherwise it is a new bitmap of the size that `target_size` gives, its
/// pixels resampled with a Lanczos filter. No side is ever longer than it
/// was, and where bitmap and terminal have pixels the result fits the
/// terminal.
pub fn prepare(image: RasterImage, geometry: Option<TerminalGeometry>) -> (prepared: RasterImage)
    ensures
        is_prepared(image@, geometry, prepared@),
        prepared@.width <= image@.width,
        prepared@.height <= image@.height,
        geometry matches Some(known) ==> (has_pixels(image@, known) ==> fits(
            prepared@.width,
            prepared@.height,
            known.spec_pixel_width(),
            known.spec_pixel_height(),
        )),
{
    let width = image.width();
    let height = image.height();
    let known = match geometry {
        Some(known) => known,
        None => {
            return image;
        },
    };
    let area_width = known.pixel_width();
    let area_height = known.pixel_height();
    let (new_width, new_height) = compute_target_size(width, height, area_width, area_height);
    proof {
        lemma_never_upscaled(width as nat, height as nat, area_width as nat, area_height as nat);
        if has_pixels(image@, known) && !fits(
            width as nat,
            height as nat,
            area_width as nat,
            area_height as nat,
        ) {
            lemma_target_size_bounds(
                width as nat,
                height as nat,
                area_width as nat,
                area_height as nat,
            );
        }
    }
    if new_width == width && new_height == height {
        return image;
    }
    let resampled = resample_lanczos3(image.into_pixels(), width, height, new_width, new_height);
    RasterImage::new(new_width, new_height, resampled).unwrap()
}

} // verus!

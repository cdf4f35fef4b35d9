use jorik_cli::prepare::{compute_target_size, prepare};
use jorik_cli::raster::{
    RasterImage, TerminalGeometry, ASSUMED_CELL_PX_HEIGHT, ASSUMED_CELL_PX_WIDTH,
};

fn patterned(width: u32, height: u32) -> RasterImage {
    let len = (width as usize) * (height as usize) * 4;
    let pixels: Vec<u8> = (0..len).map(|i| (i * 13 % 256) as u8).collect();
    RasterImage::new(width, height, pixels).unwrap()
}

#[test]
fn raster_image_needs_four_bytes_per_pixel() {
    assert!(RasterImage::new(2, 2, vec![0; 16]).is_some());
    assert!(RasterImage::new(2, 2, vec![0; 15]).is_none());
    assert!(RasterImage::new(2, 2, vec![0; 17]).is_none());
    assert!(RasterImage::new(0, 7, vec![]).is_some());
    assert!(RasterImage::new(0, 7, vec![0; 4]).is_none());
    assert!(RasterImage::new(u32::MAX, u32::MAX, vec![0; 4]).is_none());
}

#[test]
fn raster_image_hands_back_what_it_was_made_of() {
    let img = RasterImage::new(2, 1, vec![1, 2, 3, 4, 5, 6, 7, 8]).unwrap();
    assert_eq!(img.width(), 2);
    assert_eq!(img.height(), 1);
    assert!(!img.is_empty());
    assert_eq!(img.pixels(), &vec![1, 2, 3, 4, 5, 6, 7, 8]);
    assert_eq!(img.into_pixels(), vec![1, 2, 3, 4, 5, 6, 7, 8]);
    assert!(RasterImage::new(0, 3, vec![]).unwrap().is_empty());
    assert!(RasterImage::new(3, 0, vec![]).unwrap().is_empty());
}

#[test]
fn assumed_geometry_has_cells_of_8_by_16() {
    assert_eq!(ASSUMED_CELL_PX_WIDTH, 8);
    assert_eq!(ASSUMED_CELL_PX_HEIGHT, 16);
    let geometry = TerminalGeometry::assumed(80, 24);
    assert_eq!(geometry.cols, 80);
    assert_eq!(geometry.rows, 24);
    assert_eq!(geometry.cell_px_width, 8);
    assert_eq!(geometry.cell_px_height, 16);
    assert_eq!(geometry.pixel_width(), 640);
    assert_eq!(geometry.pixel_height(), 384);
}

#[test]
fn geometry_pixel_size_of_the_largest_terminal() {
    let geometry = TerminalGeometry {
        cols: u16::MAX,
        rows: u16::MAX,
        cell_px_width: u16::MAX,
        cell_px_height: 2,
    };
    assert_eq!(geometry.pixel_width(), 65535 * 65535);
    assert_eq!(geometry.pixel_height(), 131070);
}

#[test]
fn target_size_exact_values() {
    assert_eq!(compute_target_size(400, 300, 640, 384), (400, 300));
    assert_eq!(compute_target_size(640, 384, 640, 384), (640, 384));
    assert_eq!(compute_target_size(1000, 500, 640, 384), (640, 320));
    assert_eq!(compute_target_size(1920, 1080, 640, 384), (640, 360));
    assert_eq!(compute_target_size(100, 5000, 640, 384), (7, 384));
    assert_eq!(compute_target_size(641, 384, 640, 384), (640, 383));
    assert_eq!(compute_target_size(640, 385, 640, 384), (638, 384));
    assert_eq!(compute_target_size(1000, 1000, 640, 384), (384, 384));
}

#[test]
fn target_size_keeps_one_pixel_per_side() {
    assert_eq!(compute_target_size(10000, 1, 100, 100), (100, 1));
    assert_eq!(compute_target_size(1, 10000, 100, 100), (1, 100));
    assert_eq!(compute_target_size(10, 10, 0, 0), (1, 1));
    assert_eq!(compute_target_size(10, 10, 0, 100), (1, 1));
    assert_eq!(compute_target_size(10, 10, 100, 0), (1, 1));
}

#[test]
fn target_size_of_a_bitmap_without_pixels_is_its_own() {
    assert_eq!(compute_target_size(0, 0, 640, 384), (0, 0));
    assert_eq!(compute_target_size(0, 5000, 640, 384), (0, 5000));
    assert_eq!(compute_target_size(5000, 0, 640, 384), (5000, 0));
}

#[test]
fn target_size_at_the_limits_of_the_types() {
    assert_eq!(compute_target_size(u32::MAX, u32::MAX, u32::MAX, u32::MAX), (u32::MAX, u32::MAX));
    assert_eq!(compute_target_size(u32::MAX, u32::MAX, 1, 1), (1, 1));
    assert_eq!(compute_target_size(u32::MAX, 1, u32::MAX - 1, u32::MAX), (u32::MAX - 1, 1));
    assert_eq!(compute_target_size(u32::MAX, u32::MAX, u32::MAX - 1, u32::MAX), (
        u32::MAX - 1,
        u32::MAX - 1
    ));
}

#[test]
fn prepare_keeps_an_image_that_fits() {
    let geometry = TerminalGeometry::assumed(80, 24);
    for (width, height) in [(1u32, 1u32), (400, 300), (640, 384), (640, 1), (1, 384)] {
        let img = patterned(width, height);
        let pixels = img.pixels().clone();
        let prepared = prepare(img, Some(geometry));
        assert_eq!(prepared.width(), width);
        assert_eq!(prepared.height(), height);
        assert_eq!(prepared.pixels(), &pixels);
    }
}

#[test]
fn prepare_scales_an_image_that_exceeds_the_terminal() {
    let geometry = TerminalGeometry::assumed(80, 24);
    let prepared = prepare(patterned(1000, 500), Some(geometry));
    assert_eq!(prepared.width(), 640);
    assert_eq!(prepared.height(), 320);
    assert_eq!(prepared.pixels().len(), 640 * 320 * 4);
}

#[test]
fn prepare_never_exceeds_image_or_terminal_and_keeps_proportions() {
    let geometry = TerminalGeometry { cols: 20, rows: 10, cell_px_width: 5, cell_px_height: 7 };
    let (area_width, area_height) = (100u64, 70u64);
    for (width, height) in [(101u32, 70u32), (100, 71), (300, 200), (150, 600), (999, 3), (3, 999)]
    {
        let prepared = prepare(patterned(width, height), Some(geometry));
        let (new_width, new_height) = (prepared.width() as u64, prepared.height() as u64);
        let (width, height) = (width as u64, height as u64);
        assert!(1 <= new_width && new_width <= width && new_width <= area_width);
        assert!(1 <= new_height && new_height <= height && new_height <= area_height);
        assert!(new_width < width || new_height < height);
        let off_height = (new_height * width).abs_diff(height * new_width);
        let off_width = (new_width * height).abs_diff(width * new_height);
        assert!(off_height < width || off_width < height);
        assert_eq!(prepared.pixels().len() as u64, new_width * new_height * 4);
    }
}

#[test]
fn prepare_keeps_the_image_where_the_geometry_is_unknown() {
    let img = patterned(2000, 300);
    let pixels = img.pixels().clone();
    let prepared = prepare(img, None);
    assert_eq!(prepared.width(), 2000);
    assert_eq!(prepared.height(), 300);
    assert_eq!(prepared.pixels(), &pixels);
}

#[test]
fn prepare_keeps_a_bitmap_without_pixels() {
    let geometry = TerminalGeometry::assumed(80, 24);
    let prepared = prepare(patterned(0, 5000), Some(geometry));
    assert_eq!(prepared.width(), 0);
    assert_eq!(prepared.height(), 5000);
    assert!(prepared.pixels().is_empty());
}

#[test]
fn prepare_for_a_terminal_without_cells_leaves_one_pixel() {
    let geometry = TerminalGeometry::assumed(0, 0);
    let prepared = prepare(patterned(10, 20), Some(geometry));
    assert_eq!(prepared.width(), 1);
    assert_eq!(prepared.height(), 1);
    assert_eq!(prepared.pixels().len(), 4);
}

#[test]
fn prepare_resamples_a_plain_colour_to_itself() {
    let pixels: Vec<u8> = (0..64 * 64).flat_map(|_| [200u8, 100, 50, 255]).collect();
    let img = RasterImage::new(64, 64, pixels).unwrap();
    let geometry = TerminalGeometry { cols: 4, rows: 2, cell_px_width: 8, cell_px_height: 8 };
    let prepared = prepare(img, Some(geometry));
    assert_eq!(prepared.width(), 16);
    assert_eq!(prepared.height(), 16);
    for pixel in prepared.pixels().chunks(4) {
        assert_eq!(pixel, &[200u8, 100, 50, 255]);
    }
}

#[test]
fn prepare_gives_the_same_result_for_the_same_input() {
    let geometry = TerminalGeometry::assumed(10, 5);
    let first = prepare(patterned(200, 120), Some(geometry));
    let second = prepare(patterned(200, 120), Some(geometry));
    assert_eq!(first.width(), second.width());
    assert_eq!(first.height(), second.height());
    assert_eq!(first.pixels(), second.pixels());
}

use jorik_cli::detect::ProtocolKind;
use jorik_cli::encode::encode;
use jorik_cli::kitty::encode_kitty;
use jorik_cli::payload::EncodeError;
use jorik_cli::raster::RasterImage;
use jorik_cli::framing::ESC;
use jorik_cli::sixel::{encode_sixel, sixel_payload};

fn patterned(width: u32, height: u32) -> RasterImage {
    let len = (width as usize) * (height as usize) * 4;
    let pixels: Vec<u8> =
        (0..len).map(|i| if i % 4 == 3 { 255 } else { (i * 5 % 256) as u8 }).collect();
    RasterImage::new(width, height, pixels).unwrap()
}

#[test]
fn sixel_is_one_string_that_ends_itself() {
    for (width, height) in [(1u32, 1u32), (2, 2), (10, 7), (33, 50)] {
        let payload = encode_sixel(&patterned(width, height)).unwrap();
        let head = format!("\x1bP9;1;0q\"1;1;{};{}", width, height);
        assert!(payload.bytes.starts_with(head.as_bytes()));
        assert!(payload.bytes.ends_with(b"\x1b\\"));
        let escapes = payload.bytes.iter().filter(|b| **b == ESC).count();
        assert_eq!(escapes, 2);
    }
}

#[test]
fn sixel_of_one_red_pixel() {
    let img = RasterImage::new(1, 1, vec![255, 0, 0, 255]).unwrap();
    let payload = encode_sixel(&img).unwrap();
    let text = String::from_utf8(payload.bytes).unwrap();
    assert!(text.starts_with("\x1bP9;1;0q\"1;1;1;1#0;2;100;0;0"));
    assert!(text.ends_with("-\x1b\\"));
}

#[test]
fn sixel_refuses_a_bitmap_without_pixels() {
    for (width, height) in [(0u32, 0u32), (0, 4), (4, 0)] {
        let img = RasterImage::new(width, height, vec![]).unwrap();
        assert!(matches!(encode_sixel(&img), Err(EncodeError::Sixel(_))));
    }
}

#[test]
fn sixel_payload_keeps_the_text() {
    let payload = sixel_payload(Ok(vec![27, 80, 113, 27, 92])).unwrap();
    assert_eq!(payload.bytes, vec![27, 80, 113, 27, 92]);
}

#[test]
fn sixel_payload_keeps_the_error() {
    let outcome = sixel_payload(Err(icy_sixel::SixelError::IntegerOverflow));
    assert!(matches!(outcome, Err(EncodeError::Sixel(icy_sixel::SixelError::IntegerOverflow))));
    let outcome =
        sixel_payload(Err(icy_sixel::SixelError::InvalidDimensions { width: 0, height: 3 }));
    assert!(matches!(
        outcome,
        Err(EncodeError::Sixel(icy_sixel::SixelError::InvalidDimensions { width: 0, height: 3 }))
    ));
}

#[test]
fn encode_selects_the_encoder_by_protocol() {
    let img = patterned(3, 2);
    let kitty = encode(ProtocolKind::Kitty, &img).unwrap();
    assert_eq!(kitty.bytes, encode_kitty(&img).bytes);
    let iterm2 = encode(ProtocolKind::ITerm2, &img).unwrap();
    assert!(iterm2.bytes.starts_with(b"\x1b]1337;File=inline=1;size="));
    let sixel = encode(ProtocolKind::Sixel, &img).unwrap();
    assert!(sixel.bytes.starts_with(b"\x1bP"));
    assert!(matches!(encode(ProtocolKind::Unsupported, &img), Err(EncodeError::Unsupported)));
}

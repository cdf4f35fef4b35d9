use base64::Engine;
use jorik_cli::kitty::{count_chunks, encode_kitty, encode_kitty_chunked, CHUNK_SIZE};
use jorik_cli::raster::RasterImage;

fn patterned(width: u32, height: u32) -> RasterImage {
    let len = (width as usize) * (height as usize) * 4;
    let pixels: Vec<u8> = (0..len).map(|i| (i * 7 % 251) as u8).collect();
    RasterImage::new(width, height, pixels).unwrap()
}

/// Splits a stream into its control sequences, each given as the control
/// data before the semicolon and the payload after it.
fn split_sequences(stream: &[u8]) -> Vec<(String, String)> {
    let text = String::from_utf8(stream.to_vec()).unwrap();
    let mut parts = Vec::new();
    let mut rest = text.as_str();
    while !rest.is_empty() {
        assert!(rest.starts_with("\x1b_G"));
        let end = rest.find("\x1b\\").unwrap();
        let body = &rest[3..end];
        let semicolon = body.find(';').unwrap();
        parts.push((body[..semicolon].to_string(), body[semicolon + 1..].to_string()));
        rest = &rest[end + 2..];
    }
    parts
}

fn more_flag(control: &str) -> char {
    let at = control.rfind("m=").unwrap();
    assert_eq!(at + 3, control.len());
    control.chars().last().unwrap()
}

fn decoded(parts: &[(String, String)]) -> Vec<u8> {
    let mut all = Vec::new();
    for (_, payload) in parts {
        all.extend(base64::engine::general_purpose::STANDARD.decode(payload).unwrap());
    }
    all
}

#[test]
fn kitty_single_chunk_exact_bytes() {
    let img = RasterImage::new(1, 1, vec![255, 0, 0, 255]).unwrap();
    let payload = encode_kitty(&img);
    let expected = "\x1b_Gq=2,i=1,a=T,U=1,f=32,t=d,s=1,v=1,m=0;/wAA/w==\x1b\\";
    assert_eq!(payload.bytes, expected.as_bytes().to_vec());
}

#[test]
fn kitty_two_chunks_exact_bytes() {
    let img = RasterImage::new(2, 1, vec![1, 2, 3, 4, 5, 6, 7, 8]).unwrap();
    let payload = encode_kitty_chunked(&img, 6);
    let expected =
        "\x1b_Gq=2,i=1,a=T,U=1,f=32,t=d,s=2,v=1,m=1;AQIDBAUG\x1b\\\x1b_Gq=2,m=0;Bwg=\x1b\\";
    assert_eq!(payload.bytes, expected.as_bytes().to_vec());
}

#[test]
fn kitty_chunk_of_one_byte() {
    let img = RasterImage::new(1, 1, vec![0, 255, 16, 7]).unwrap();
    let payload = encode_kitty_chunked(&img, 1);
    let parts = split_sequences(&payload.bytes);
    assert_eq!(parts.len(), 4);
    assert_eq!(parts[0].1, "AA==");
    assert_eq!(parts[1].1, "/w==");
    assert_eq!(parts[2].1, "EA==");
    assert_eq!(parts[3].1, "Bw==");
}

#[test]
fn kitty_empty_image_gives_no_sequence() {
    let img = patterned(0, 5);
    assert!(encode_kitty(&img).bytes.is_empty());
    assert_eq!(count_chunks(0, CHUNK_SIZE), 0);
}

#[test]
fn kitty_default_chunk_size_is_4096() {
    assert_eq!(CHUNK_SIZE, 4096);
    let img = patterned(32, 33);
    assert_eq!(encode_kitty(&img).bytes, encode_kitty_chunked(&img, 4096).bytes);
}

#[test]
fn kitty_scenario_4096_by_1_gives_four_sequences() {
    let img = patterned(4096, 1);
    assert_eq!(img.pixels().len(), 16384);
    let payload = encode_kitty(&img);
    let parts = split_sequences(&payload.bytes);
    assert_eq!(parts.len(), 4);
    let flags: Vec<char> = parts.iter().map(|(control, _)| more_flag(control)).collect();
    assert_eq!(flags, vec!['1', '1', '1', '0']);
    assert_eq!(parts[0].0, "q=2,i=1,a=T,U=1,f=32,t=d,s=4096,v=1,m=1");
    assert_eq!(parts[1].0, "q=2,m=1");
    assert_eq!(parts[2].0, "q=2,m=1");
    assert_eq!(parts[3].0, "q=2,m=0");
    assert_eq!(decoded(&parts), img.pixels().clone());
}

#[test]
fn kitty_sequence_count_is_len_over_chunk_size_rounded_up() {
    let img = patterned(5, 3);
    let len = img.pixels().len();
    assert_eq!(len, 60);
    for chunk_size in [1u16, 2, 3, 7, 59, 60, 61, 4096] {
        let payload = encode_kitty_chunked(&img, chunk_size);
        let parts = split_sequences(&payload.bytes);
        let expected = (len + chunk_size as usize - 1) / chunk_size as usize;
        assert_eq!(parts.len(), expected);
        assert_eq!(count_chunks(len, chunk_size), expected);
    }
}

#[test]
fn kitty_only_the_last_sequence_says_no_more() {
    let img = patterned(5, 3);
    for chunk_size in [1u16, 7, 20, 60, 100] {
        let payload = encode_kitty_chunked(&img, chunk_size);
        let parts = split_sequences(&payload.bytes);
        for (i, (control, _)) in parts.iter().enumerate() {
            let expected = if i + 1 == parts.len() { '0' } else { '1' };
            assert_eq!(more_flag(control), expected);
        }
    }
}

#[test]
fn kitty_payloads_decode_to_the_pixels() {
    let img = patterned(9, 7);
    for chunk_size in [1u16, 2, 3, 4, 5, 100, 251, 252, 253, 4096] {
        let payload = encode_kitty_chunked(&img, chunk_size);
        let parts = split_sequences(&payload.bytes);
        assert_eq!(decoded(&parts), img.pixels().clone());
    }
}

#[test]
fn kitty_only_the_first_sequence_describes_the_image() {
    let img = patterned(300, 2);
    let payload = encode_kitty_chunked(&img, 1000);
    let parts = split_sequences(&payload.bytes);
    assert_eq!(parts.len(), 3);
    assert_eq!(parts[0].0, "q=2,i=1,a=T,U=1,f=32,t=d,s=300,v=2,m=1");
    assert_eq!(parts[1].0, "q=2,m=1");
    assert_eq!(parts[2].0, "q=2,m=0");
}

#[test]
fn count_chunks_exact_values() {
    assert_eq!(count_chunks(16384, 4096), 4);
    assert_eq!(count_chunks(16385, 4096), 5);
    assert_eq!(count_chunks(1, 4096), 1);
    assert_eq!(count_chunks(4096, 4096), 1);
    assert_eq!(count_chunks(usize::MAX, 1), usize::MAX);
    assert_eq!(count_chunks(10, u16::MAX), 1);
}

#[test]
fn kitty_stream_holds_two_escapes_per_chunk() {
    let img = patterned(7, 5);
    let len = img.pixels().len();
    for chunk_size in [1u16, 3, 10, 139, 140, 141, 4096] {
        let payload = encode_kitty_chunked(&img, chunk_size);
        let escapes = payload.bytes.iter().filter(|b| **b == 0x1b).count();
        assert_eq!(escapes, 2 * count_chunks(len, chunk_size));
    }
}

use raytracer::encode::Chromaticities;
use raytracer::image::Image;

fn be(v: u32) -> [u8; 4] {
    v.to_be_bytes()
}

#[test]
fn srgb_chromaticities_are_scaled_by_hundred_thousand() {
    let c = Chromaticities::srgb();
    assert_eq!((c.white_x, c.white_y), (31270, 32900));
    assert_eq!((c.red_x, c.red_y), (64000, 33000));
    assert_eq!((c.green_x, c.green_y), (30000, 60000));
    assert_eq!((c.blue_x, c.blue_y), (15000, 6000));
}

#[test]
fn encoded_file_starts_with_signature_and_header() {
    let mut img = Image::new(3, 2).unwrap();
    img.set_pixel(1, 1, 255, 0, 0);
    let bytes = img.encode_png().unwrap();
    assert_eq!(&bytes[0..8], &[137, 80, 78, 71, 13, 10, 26, 10]);
    assert_eq!(&bytes[8..16], b"\0\0\0\x0dIHDR");
    assert_eq!(&bytes[16..20], &be(3));
    assert_eq!(&bytes[20..24], &be(2));
    assert_eq!(&bytes[24..29], &[8, 2, 0, 0, 0]);
}

#[test]
fn encoded_file_carries_srgb_chromaticities() {
    let img = Image::new(2, 2).unwrap();
    let bytes = img.encode_png().unwrap();
    assert_eq!(&bytes[33..41], b"\0\0\0\x20cHRM");
    let mut expected = Vec::new();
    for v in [31270u32, 32900, 64000, 33000, 30000, 60000, 15000, 6000] {
        expected.extend_from_slice(&be(v));
    }
    assert_eq!(&bytes[41..73], expected.as_slice());
}

#[test]
fn encoded_file_ends_with_end_chunk() {
    let img = Image::new(1, 1).unwrap();
    let bytes = img.encode_png().unwrap();
    let n = bytes.len();
    assert_eq!(&bytes[n - 12..n - 4], b"\0\0\0\0IEND");
}

#[test]
fn encoded_file_decodes_to_stored_pixels() {
    let mut img = Image::new(3, 2).unwrap();
    img.fill_with(|x, y| ((40 * x + 7) as u8, (100 * y + 3) as u8, (x + 10 * y) as u8));
    let bytes = img.encode_png().unwrap();

    let reader = png::Decoder::new(bytes.as_slice()).read_info();
    let mut reader = reader.unwrap();
    let mut buf = vec![0u8; reader.output_buffer_size()];
    let frame = reader.next_frame(&mut buf).unwrap();
    assert_eq!((frame.width, frame.height), (3, 2));
    assert_eq!(frame.color_type, png::ColorType::Rgb);
    assert_eq!(frame.bit_depth, png::BitDepth::Eight);
    assert_eq!(&buf[..frame.buffer_size()], img.as_bytes());

    let chrm = reader.info().source_chromaticities.unwrap();
    let scaled = [
        chrm.white.0, chrm.white.1, chrm.red.0, chrm.red.1,
        chrm.green.0, chrm.green.1, chrm.blue.0, chrm.blue.1,
    ]
    .map(|v| v.into_scaled());
    assert_eq!(scaled, [31270, 32900, 64000, 33000, 30000, 60000, 15000, 6000]);
}

#[test]
fn encoding_is_deterministic() {
    let mut img = Image::new(5, 4).unwrap();
    img.fill_with(|x, y| ((x * y) as u8, 0, 255));
    assert_eq!(img.encode_png().unwrap(), img.encode_png().unwrap());
}

use vadb::capture::{decode_capture, expand_rgba, DecodeError};

fn encode_png(width: u32, height: u32, color: png::ColorType, data: &[u8]) -> Vec<u8> {
    let mut out: Vec<u8> = Vec::new();
    {
        let mut enc = png::Encoder::new(&mut out, width, height);
        enc.set_color(color);
        enc.set_depth(png::BitDepth::Eight);
        let mut writer = enc.write_header().unwrap();
        writer.write_image_data(data).unwrap();
    }
    out
}

#[test]
fn expand_grayscale_replicates_and_fills_alpha() {
    let out = expand_rgba(1, &vec![7, 9], 2);
    assert_eq!(out, vec![7, 7, 7, 255, 9, 9, 9, 255]);
}

#[test]
fn expand_grayscale_alpha_keeps_alpha() {
    let out = expand_rgba(2, &vec![7, 100, 9, 200], 2);
    assert_eq!(out, vec![7, 7, 7, 100, 9, 9, 9, 200]);
}

#[test]
fn expand_rgb_fills_alpha() {
    let out = expand_rgba(3, &vec![1, 2, 3, 4, 5, 6], 2);
    assert_eq!(out, vec![1, 2, 3, 255, 4, 5, 6, 255]);
}

#[test]
fn expand_rgba_is_identity() {
    let out = expand_rgba(4, &vec![1, 2, 3, 4, 5, 6, 7, 8], 2);
    assert_eq!(out, vec![1, 2, 3, 4, 5, 6, 7, 8]);
}

#[test]
fn garbage_bytes_are_malformed() {
    let r = decode_capture(&vec![1, 2, 3, 4]);
    assert_eq!(r.err(), Some(DecodeError::Malformed));
}

#[test]
fn truncated_png_is_malformed() {
    let data = encode_png(2, 2, png::ColorType::Rgba, &[9u8; 16]);
    let r = decode_capture(&data[..20].to_vec());
    assert_eq!(r.err(), Some(DecodeError::Malformed));
}

#[test]
fn rgba_png_round_trips() {
    let pixels: Vec<u8> = vec![
        10, 20, 30, 40, 50, 60, 70, 80, 90, 100, 110, 120, 130, 140, 150, 160,
    ];
    let data = encode_png(2, 2, png::ColorType::Rgba, &pixels);
    let cap = decode_capture(&data).unwrap();
    assert_eq!((cap.width, cap.height), (2, 2));
    assert_eq!(cap.pixels, pixels);
}

#[test]
fn rgb_png_decodes_to_opaque_rgba() {
    let data = encode_png(2, 1, png::ColorType::Rgb, &[1, 2, 3, 4, 5, 6]);
    let cap = decode_capture(&data).unwrap();
    assert_eq!((cap.width, cap.height), (2, 1));
    assert_eq!(cap.pixels, vec![1, 2, 3, 255, 4, 5, 6, 255]);
}

#[test]
fn grayscale_png_decodes_to_gray_rgba() {
    let data = encode_png(3, 1, png::ColorType::Grayscale, &[0, 128, 255]);
    let cap = decode_capture(&data).unwrap();
    assert_eq!((cap.width, cap.height), (3, 1));
    assert_eq!(
        cap.pixels,
        vec![0, 0, 0, 255, 128, 128, 128, 255, 255, 255, 255, 255]
    );
}

#[test]
fn sixteen_bit_png_is_stripped_to_eight() {
    // Two 16-bit grayscale samples, big endian: 0x0102 and 0xfffe.
    let mut out: Vec<u8> = Vec::new();
    {
        let mut enc = png::Encoder::new(&mut out, 2, 1);
        enc.set_color(png::ColorType::Grayscale);
        enc.set_depth(png::BitDepth::Sixteen);
        let mut writer = enc.write_header().unwrap();
        writer.write_image_data(&[0x01, 0x02, 0xff, 0xfe]).unwrap();
    }
    let cap = decode_capture(&out).unwrap();
    assert_eq!((cap.width, cap.height), (2, 1));
    assert_eq!(cap.pixels, vec![1, 1, 1, 255, 255, 255, 255, 255]);
}

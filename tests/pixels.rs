use png2jpeg::pixels::{decode, to_rgb, ColorModel, DecodeError, Frame};

fn png_bytes(w: u32, h: u32, color: png::ColorType, depth: png::BitDepth, data: &[u8]) -> Vec<u8> {
    let mut out = Vec::new();
    {
        let mut enc = png::Encoder::new(&mut out, w, h);
        enc.set_color(color);
        enc.set_depth(depth);
        if color == png::ColorType::Indexed {
            enc.set_palette(vec![0u8, 0, 0, 255, 255, 255]);
        }
        let mut writer = enc.write_header().unwrap();
        writer.write_image_data(data).unwrap();
        writer.finish().unwrap();
    }
    out
}

#[test]
fn rgb_image_keeps_its_bytes() {
    let data: Vec<u8> = (0..300u32).map(|i| (i % 251) as u8).collect();
    let bytes = png_bytes(10, 10, png::ColorType::Rgb, png::BitDepth::Eight, &data);
    let p = decode(&bytes).unwrap();
    assert_eq!((p.width, p.height), (10, 10));
    assert_eq!(p.rgb.len(), 300);
    assert_eq!(p.rgb, data);
}

#[test]
fn rgba_image_loses_its_alpha() {
    let mut data = Vec::new();
    for i in 0..25u8 {
        data.extend_from_slice(&[i, i + 100, i + 200, 250]);
    }
    let bytes = png_bytes(5, 5, png::ColorType::Rgba, png::BitDepth::Eight, &data);
    let p = decode(&bytes).unwrap();
    assert_eq!((p.width, p.height), (5, 5));
    assert_eq!(p.rgb.len(), 75);
    assert_eq!(&p.rgb[0..6], &[0, 100, 200, 1, 101, 201]);
    assert!(!p.rgb.contains(&250));
}

#[test]
fn gray_image_fills_three_channels() {
    let bytes = png_bytes(2, 1, png::ColorType::Grayscale, png::BitDepth::Eight, &[9, 40]);
    let p = decode(&bytes).unwrap();
    assert_eq!(p.rgb, vec![9, 9, 9, 40, 40, 40]);
}

#[test]
fn gray_alpha_image_drops_alpha_and_fills_channels() {
    let bytes = png_bytes(2, 1, png::ColorType::GrayscaleAlpha, png::BitDepth::Eight, &[9, 1, 40, 2]);
    let p = decode(&bytes).unwrap();
    assert_eq!(p.rgb, vec![9, 9, 9, 40, 40, 40]);
}

#[test]
fn corrupt_bytes_are_malformed() {
    let r = decode(&[1, 2, 3, 4, 5, 6, 7, 8, 9]);
    assert!(matches!(r, Err(DecodeError::Malformed(_))));
}

#[test]
fn palette_image_is_refused() {
    let bytes = png_bytes(2, 1, png::ColorType::Indexed, png::BitDepth::Eight, &[0, 1]);
    assert!(matches!(decode(&bytes), Err(DecodeError::UnsupportedColor(ColorModel::Indexed))));
}

#[test]
fn sixteen_bit_image_is_refused() {
    let bytes = png_bytes(1, 1, png::ColorType::Rgb, png::BitDepth::Sixteen, &[0, 1, 2, 3, 4, 5]);
    assert!(matches!(decode(&bytes), Err(DecodeError::UnsupportedDepth(16))));
}

#[test]
fn short_frame_is_truncated() {
    let frame = Frame { color: ColorModel::Rgb, bit_depth: 8, width: 2, height: 2, samples: vec![0; 11] };
    assert!(matches!(to_rgb(frame), Err(DecodeError::Truncated)));
}

#[test]
fn empty_frame_gives_no_pixels() {
    let frame = Frame { color: ColorModel::Rgba, bit_depth: 8, width: 0, height: 3, samples: vec![] };
    let p = to_rgb(frame).unwrap();
    assert!(p.rgb.is_empty());
}

#[test]
fn longer_buffer_uses_only_the_frame() {
    let frame = Frame {
        color: ColorModel::Rgba,
        bit_depth: 8,
        width: 1,
        height: 1,
        samples: vec![1, 2, 3, 4, 5, 6, 7, 8],
    };
    assert_eq!(to_rgb(frame).unwrap().rgb, vec![1, 2, 3]);
}

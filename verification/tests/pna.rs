use pna_merge::format::{BitDepth, ColorModel, ImageInfo};
use pna_merge::merge::merge_pna;
use pna_merge::normalize::{buf_to_alpha_mask, buf_to_rgba};
use pna_merge::unpack::{read_bytes_for_bit_depth_8, read_bytes_for_usize};

#[test]
fn success_when_valid_param() {
    let png_buf = vec![u8::MAX, u8::MAX, u8::MAX, u8::MAX, u8::MAX, u8::MAX];
    let mut png_info = ImageInfo::with_size(2, 1);
    png_info.color_model = ColorModel::Rgb;
    png_info.bit_depth = BitDepth::Eight;

    let pna_buf = vec![0, 0];
    let mut pna_info = ImageInfo::with_size(2, 1);
    pna_info.color_model = ColorModel::Grayscale;
    pna_info.bit_depth = BitDepth::Eight;

    let result = merge_pna(&png_buf, &png_info, &pna_buf, &pna_info).unwrap();

    assert_eq!(
        result,
        vec![u8::MAX, u8::MAX, u8::MAX, 0, u8::MAX, u8::MAX, u8::MAX, 0]
    );
}

#[test]
fn success_when_valid_buf_for_grayscale() {
    let buf = vec![0b11000000];
    let mut info = ImageInfo::with_size(2, 2);
    info.color_model = ColorModel::Grayscale;
    info.bit_depth = BitDepth::Two;

    let result = buf_to_rgba(&buf, &info).unwrap();

    assert_eq!(
        result,
        vec![
            u8::MAX,
            u8::MAX,
            u8::MAX,
            u8::MAX,
            0,
            0,
            0,
            u8::MAX,
            0,
            0,
            0,
            u8::MAX,
            0,
            0,
            0,
            u8::MAX
        ]
    );
}

#[test]
fn success_when_valid_buf_for_indexed() {
    let buf = vec![0b11000000];
    let mut info = ImageInfo::with_size(2, 2);
    info.color_model = ColorModel::Indexed;
    info.bit_depth = BitDepth::One;
    info.palette = Some(vec![255, 0, 0, 0, 0, 255]);

    let result = buf_to_rgba(&buf, &info).unwrap();

    assert_eq!(
        result,
        vec![
            0,
            0,
            255,
            u8::MAX,
            0,
            0,
            255,
            u8::MAX,
            255,
            0,
            0,
            u8::MAX,
            255,
            0,
            0,
            u8::MAX,
            255,
            0,
            0,
            u8::MAX,
            255,
            0,
            0,
            u8::MAX,
            255,
            0,
            0,
            u8::MAX,
            255,
            0,
            0,
            u8::MAX,
        ]
    );
}

#[test]
fn success_when_valid_buf_for_grayscale_alpha() {
    let buf = vec![0b11000000, 0b00110000, 0b00001100, 0b00000011];
    let mut info = ImageInfo::with_size(2, 1);
    info.color_model = ColorModel::GrayscaleAlpha;
    info.bit_depth = BitDepth::Eight;

    let result = buf_to_rgba(&buf, &info).unwrap();

    assert_eq!(
        result,
        vec![
            0b11000000, 0b11000000, 0b11000000, 0b00110000, 0b00001100, 0b00001100, 0b00001100,
            0b00000011,
        ]
    );
}

#[test]
fn success_when_valid_buf_for_rgba() {
    let buf = vec![
        0b11000000, 0b00110000, 0b00001100, 0b00000011, 0b11000000, 0b00110000, 0b00001100,
        0b00000011,
    ];
    let mut info = ImageInfo::with_size(1, 1);
    info.color_model = ColorModel::Rgba;
    info.bit_depth = BitDepth::Sixteen;

    let result = buf_to_rgba(&buf, &info).unwrap();

    assert_eq!(result, vec![0b11000000, 0b00001100, 0b11000000, 0b00001100,]);
}

#[test]
fn pna_success_when_valid_buf_for_grayscale() {
    let buf = vec![0b11000000];
    let mut info = ImageInfo::with_size(2, 2);
    info.color_model = ColorModel::Grayscale;
    info.bit_depth = BitDepth::Two;

    let result = buf_to_alpha_mask(&buf, &info).unwrap();

    assert_eq!(result, vec![u8::MAX, 0, 0, 0]);
}

#[test]
fn pna_success_when_valid_buf_for_indexed() {
    let buf = vec![0b11000000];
    let mut info = ImageInfo::with_size(2, 2);
    info.color_model = ColorModel::Indexed;
    info.bit_depth = BitDepth::One;
    info.palette = Some(vec![255, 0, 0, 0, 0, 255]);

    let result = buf_to_alpha_mask(&buf, &info).unwrap();

    assert_eq!(result, vec![85, 85, 85, 85, 85, 85, 85, 85]);
}

#[test]
fn pna_success_when_valid_buf_for_grayscale_alpha() {
    let buf = vec![0b11000000, 0b00110000, 0b00001100, 0b00000011];
    let mut info = ImageInfo::with_size(2, 1);
    info.color_model = ColorModel::GrayscaleAlpha;
    info.bit_depth = BitDepth::Eight;

    let result = buf_to_alpha_mask(&buf, &info).unwrap();

    assert_eq!(result, vec![192, 12]);
}

#[test]
fn pna_success_when_valid_buf_for_rgba() {
    let buf = vec![
        0b11000000, 0b00110000, 0b00001100, 0b00000011, 0b11000000, 0b00110000, 0b00001100,
        0b00000011,
    ];
    let mut info = ImageInfo::with_size(1, 1);
    info.color_model = ColorModel::Rgba;
    info.bit_depth = BitDepth::Sixteen;

    let result = buf_to_alpha_mask(&buf, &info).unwrap();

    assert_eq!(result, vec![132]);
}

#[test]
fn success_when_valid_bytes_loaded_by_one() {
    let buf = vec![0b00110110, 0b11001001];
    let bit_depth = BitDepth::Four;

    let result = read_bytes_for_bit_depth_8(&buf, &bit_depth).unwrap();

    assert_eq!(result, vec![0b00111111, 0b01100000, 0b11000000, 0b10011111]);
}

#[test]
fn success_when_valid_bytes_loaded_by_two() {
    let buf = vec![0b00110110, 0b11001001];
    let bit_depth = BitDepth::Sixteen;

    let result = read_bytes_for_bit_depth_8(&buf, &bit_depth).unwrap();

    assert_eq!(result, vec![0b00110110]);
}

#[test]
fn pna_success_when_valid_bytes_loaded_by_one() {
    let buf = vec![0b00110110, 0b11001001];
    let bit_depth = BitDepth::Four;

    let result = read_bytes_for_usize(&buf, &bit_depth).unwrap();

    assert_eq!(
        result,
        vec![
            0b00000011 as usize,
            0b00000110 as usize,
            0b00001100 as usize,
            0b00001001 as usize
        ]
    );
}

#[test]
fn success_when_valud_bytes_loaded_by_two() {
    let buf = vec![0b00110110, 0b11001001];
    let bit_depth = BitDepth::Sixteen;

    let result = read_bytes_for_usize(&buf, &bit_depth).unwrap();

    assert_eq!(result, vec![0b0011011011001001 as usize]);
}

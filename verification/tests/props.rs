use pna_merge::error::MergeError;
use pna_merge::format::{BitDepth, ColorModel, ImageInfo};
use pna_merge::merge::{adjust_length, merge_pna};
use pna_merge::normalize::{buf_to_alpha_mask, buf_to_rgba, split_palette};
use pna_merge::unpack::{bit_to_u8, read_bytes_for_bit_depth_8, read_bytes_for_usize};

#[test]
fn scaled_expansion_depth_two() {
    assert_eq!(bit_to_u8(0b11, 2), 255);
    assert_eq!(bit_to_u8(0b10, 2), 128);
    assert_eq!(bit_to_u8(0b01, 2), 127);
    assert_eq!(bit_to_u8(0b00, 2), 0);
}

#[test]
fn scaled_expansion_depth_one() {
    assert_eq!(bit_to_u8(1, 1), 255);
    assert_eq!(bit_to_u8(0, 1), 0);
}

#[test]
fn scaled_expansion_depth_four() {
    assert_eq!(bit_to_u8(0b1111, 4), 255);
    assert_eq!(bit_to_u8(0b1000, 4), 128);
    assert_eq!(bit_to_u8(0b0001, 4), 0b00011111);
    assert_eq!(bit_to_u8(0b0110, 4), 0b01100000);
}

#[test]
fn indexed_pixels_alternate_through_palette() {
    // Depth-1 indices 1,0,1,0,... read MSB-first from one byte; entry 0 is
    // red, entry 1 is blue, so the pixels alternate blue/red, all opaque.
    let buf = vec![0b10101010];
    let mut info = ImageInfo::with_size(8, 1);
    info.color_model = ColorModel::Indexed;
    info.bit_depth = BitDepth::One;
    info.palette = Some(vec![255, 0, 0, 0, 0, 255]);

    let result = buf_to_rgba(&buf, &info).unwrap();

    let blue = [0, 0, 255, 255];
    let red = [255, 0, 0, 255];
    let mut expected = Vec::new();
    for px in 0..8 {
        if px % 2 == 0 {
            expected.extend_from_slice(&blue);
        } else {
            expected.extend_from_slice(&red);
        }
    }
    assert_eq!(result, expected);
}

#[test]
fn alpha_is_truncated_rgb_average() {
    let buf = vec![255, 255, 255, 0, 0, 0, 1, 1, 1, 64, 170, 64];
    let mut info = ImageInfo::with_size(4, 1);
    info.color_model = ColorModel::Rgb;
    info.bit_depth = BitDepth::Eight;

    let result = buf_to_alpha_mask(&buf, &info).unwrap();

    assert_eq!(result, vec![255, 0, 1, 99]);
}

#[test]
fn mismatched_dimensions_fail_before_normalization() {
    let png_buf = vec![1, 2, 3];
    let mut png_info = ImageInfo::with_size(1, 1);
    png_info.color_model = ColorModel::Rgb;
    png_info.bit_depth = BitDepth::Eight;

    // The mask image is malformed (indexed with no palette); the dimension
    // check still comes first.
    let pna_buf = vec![0];
    let mut pna_info = ImageInfo::with_size(2, 1);
    pna_info.color_model = ColorModel::Indexed;
    pna_info.bit_depth = BitDepth::Eight;

    let result = merge_pna(&png_buf, &png_info, &pna_buf, &pna_info);
    assert_eq!(result, Err(MergeError::SizePngAndPnaAreDifferent));
}

#[test]
fn short_buffer_fails_merge() {
    // 2x2 grayscale needs 4 samples; only 3 bytes arrive.
    let png_buf = vec![9, 9, 9];
    let mut png_info = ImageInfo::with_size(2, 2);
    png_info.color_model = ColorModel::Grayscale;
    png_info.bit_depth = BitDepth::Eight;

    let pna_buf = vec![0, 0, 0, 0];
    let mut pna_info = ImageInfo::with_size(2, 2);
    pna_info.color_model = ColorModel::Grayscale;
    pna_info.bit_depth = BitDepth::Eight;

    let result = merge_pna(&png_buf, &png_info, &pna_buf, &pna_info);
    assert_eq!(result, Err(MergeError::LessDataSize));
}

#[test]
fn long_buffer_is_truncated_and_merge_succeeds() {
    // 2x1 grayscale needs 2 samples; 5 bytes arrive and the surplus is
    // dropped silently.
    let png_buf = vec![10, 20, 30, 40, 50];
    let mut png_info = ImageInfo::with_size(2, 1);
    png_info.color_model = ColorModel::Grayscale;
    png_info.bit_depth = BitDepth::Eight;

    let pna_buf = vec![0, 0, 0];
    let mut pna_info = ImageInfo::with_size(2, 1);
    pna_info.color_model = ColorModel::Grayscale;
    pna_info.bit_depth = BitDepth::Eight;

    let result = merge_pna(&png_buf, &png_info, &pna_buf, &pna_info).unwrap();
    assert_eq!(result, vec![10, 10, 10, 0, 20, 20, 20, 0]);
}

#[test]
fn out_of_range_index_fails_at_depth_one() {
    // One palette entry; the second bit addresses entry 1, past the end.
    let buf = vec![0b01000000];
    let mut info = ImageInfo::with_size(8, 1);
    info.color_model = ColorModel::Indexed;
    info.bit_depth = BitDepth::One;
    info.palette = Some(vec![9, 9, 9]);

    let result = buf_to_rgba(&buf, &info);
    assert_eq!(result, Err(MergeError::InvalidIndexForPalette));
}

#[test]
fn out_of_range_index_fails_at_depth_eight() {
    let buf = vec![0, 1, 5];
    let mut info = ImageInfo::with_size(3, 1);
    info.color_model = ColorModel::Indexed;
    info.bit_depth = BitDepth::Eight;
    info.palette = Some(vec![9, 9, 9, 8, 8, 8]);

    let result = buf_to_rgba(&buf, &info);
    assert_eq!(result, Err(MergeError::InvalidIndexForPalette));
}

#[test]
fn indexed_without_palette_fails() {
    let buf = vec![0];
    let mut info = ImageInfo::with_size(1, 1);
    info.color_model = ColorModel::Indexed;
    info.bit_depth = BitDepth::Eight;

    let result = buf_to_rgba(&buf, &info);
    assert_eq!(result, Err(MergeError::PaletteNotFoundWhenIndexedPng));
}

#[test]
fn ragged_palette_fails() {
    let buf = vec![0];
    let mut info = ImageInfo::with_size(1, 1);
    info.color_model = ColorModel::Indexed;
    info.bit_depth = BitDepth::Eight;
    info.palette = Some(vec![1, 2, 3, 4]);

    let result = buf_to_rgba(&buf, &info);
    assert_eq!(result, Err(MergeError::InvalidPalette));
}

#[test]
fn odd_byte_count_fails_at_depth_sixteen() {
    let buf = vec![0b00110110, 0b11001001, 0b11110000];
    assert_eq!(
        read_bytes_for_bit_depth_8(&buf, &BitDepth::Sixteen),
        Err(MergeError::LessDataSize)
    );
    assert_eq!(
        read_bytes_for_usize(&buf, &BitDepth::Sixteen),
        Err(MergeError::LessDataSize)
    );
}

#[test]
fn merge_of_empty_images_is_empty() {
    let png_buf: Vec<u8> = Vec::new();
    let mut png_info = ImageInfo::with_size(0, 0);
    png_info.color_model = ColorModel::Rgb;
    png_info.bit_depth = BitDepth::Eight;

    let pna_buf: Vec<u8> = Vec::new();
    let pna_info = ImageInfo::with_size(0, 0);

    let result = merge_pna(&png_buf, &png_info, &pna_buf, &pna_info).unwrap();
    assert_eq!(result, Vec::<u8>::new());
}

#[test]
fn merge_twice_is_byte_identical() {
    let png_buf = vec![0b11000000, 0b00001111];
    let mut png_info = ImageInfo::with_size(4, 2);
    png_info.color_model = ColorModel::Grayscale;
    png_info.bit_depth = BitDepth::Two;

    let pna_buf = vec![7, 7, 200, 0, 13, 50, 99, 1];
    let mut pna_info = ImageInfo::with_size(4, 2);
    pna_info.color_model = ColorModel::Grayscale;
    pna_info.bit_depth = BitDepth::Eight;

    let first = merge_pna(&png_buf, &png_info, &pna_buf, &pna_info).unwrap();
    let second = merge_pna(&png_buf, &png_info, &pna_buf, &pna_info).unwrap();
    assert_eq!(first, second);
}

#[test]
fn rgba_image_merged_with_itself_replaces_alpha_with_luminance() {
    let buf = vec![10, 20, 30, 99, 60, 60, 60, 7];
    let mut info = ImageInfo::with_size(1, 2);
    info.color_model = ColorModel::Rgba;
    info.bit_depth = BitDepth::Eight;

    let result = merge_pna(&buf, &info, &buf, &info).unwrap();
    assert_eq!(result, vec![10, 20, 30, 20, 60, 60, 60, 60]);
}

#[test]
fn split_palette_groups_triplets_in_order() {
    let palette = vec![1, 2, 3, 4, 5, 6];
    let result = split_palette(&palette).unwrap();
    assert_eq!(result, vec![[1, 2, 3], [4, 5, 6]]);
    assert_eq!(split_palette(&vec![1, 2]), Err(MergeError::InvalidPalette));
}

#[test]
fn adjust_length_truncates_or_fails() {
    let mut buf = vec![1, 2, 3, 4];
    assert_eq!(adjust_length(&mut buf, 2), Ok(()));
    assert_eq!(buf, vec![1, 2]);

    let mut short = vec![1];
    assert_eq!(adjust_length(&mut short, 2), Err(MergeError::LessDataSize));
    assert_eq!(short, vec![1]);
}

#[test]
fn normalized_length_is_four_bytes_per_pixel_for_every_model() {
    // 24 samples at depth 8 make a whole number of pixels under every model.
    let buf: Vec<u8> = (0..24).collect();

    for (model, pixels) in [
        (ColorModel::Grayscale, 24),
        (ColorModel::GrayscaleAlpha, 12),
        (ColorModel::Rgb, 8),
        (ColorModel::Rgba, 6),
    ] {
        let mut info = ImageInfo::with_size(pixels, 1);
        info.color_model = model;
        info.bit_depth = BitDepth::Eight;
        let rgba = buf_to_rgba(&buf, &info).unwrap();
        assert_eq!(rgba.len(), 4 * pixels as usize);
    }

    let mut info = ImageInfo::with_size(24, 1);
    info.color_model = ColorModel::Indexed;
    info.bit_depth = BitDepth::Eight;
    info.palette = Some(vec![0; 26 * 3]);
    let rgba = buf_to_rgba(&buf, &info).unwrap();
    assert_eq!(rgba.len(), 4 * 24);
}

#[test]
fn partial_pixel_group_fails_normalization() {
    // Ten 4-bit samples cannot fill RGB pixels evenly: the run ends in the
    // middle of the last pixel's channel tuple.
    let buf = vec![0b11000000, 0b00001111, 0b11110000, 0b11000000, 0b00000000];
    let mut info = ImageInfo::with_size(3, 1);
    info.color_model = ColorModel::Rgb;
    info.bit_depth = BitDepth::Four;
    assert_eq!(buf_to_rgba(&buf, &info), Err(MergeError::LessDataSize));

    let mut ga = ImageInfo::with_size(1, 1);
    ga.color_model = ColorModel::GrayscaleAlpha;
    ga.bit_depth = BitDepth::Eight;
    assert_eq!(buf_to_rgba(&vec![1, 2, 3], &ga), Err(MergeError::LessDataSize));
}

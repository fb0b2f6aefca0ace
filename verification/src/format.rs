use vstd::prelude::*;

verus! {

/// Number of bits that encode one sample.
#[derive(Clone, Copy, Debug, PartialEq, Eq, Structural)]
pub enum BitDepth {
    One,
    Two,
    Four,
    Eight,
    Sixteen,
}

/// How samples combine into one pixel.
#[derive(Clone, Copy, Debug, PartialEq, Eq, Structural)]
pub enum ColorModel {
    Grayscale,
    GrayscaleAlpha,
    Rgb,
    Rgba,
    Indexed,
}

/// Format metadata of one decoded image, as the codec reports it.
/// The palette is the raw byte run of RGB triplets, present only for
/// indexed-color images.
#[derive(Debug)]
pub struct ImageInfo {
    pub width: u32,
    pub height: u32,
    pub bit_depth: BitDepth,
    pub color_model: ColorModel,
    pub palette: Option<Vec<u8>>,
}

impl ImageInfo {
    /// Metadata of the given size with the defaults a fresh header carries:
    /// 8-bit grayscale, no palette.
    pub fn with_size(width: u32, height: u32) -> (r: ImageInfo)
        ensures
            r.width == width,
            r.height == height,
            r.bit_depth == BitDepth::Eight,
            r.color_model == ColorModel::Grayscale,
            r.palette is None,
    {
        ImageInfo {
            width,
            height,
            bit_depth: BitDepth::Eight,
            color_model: ColorModel::Grayscale,
            palette: None,
        }
    }
}

/// Number of pixels the metadata declares.
pub open spec fn pixel_count(info: ImageInfo) -> int {
    info.width as int * info.height as int
}

/// Samples that make up one pixel before RGBA expansion.
pub open spec fn sample_arity(m: ColorModel) -> int {
    match m {
        ColorModel::Grayscale => 1,
        ColorModel::GrayscaleAlpha => 2,
        ColorModel::Rgb => 3,
        ColorModel::Rgba => 4,
        ColorModel::Indexed => 1,
    }
}

/// The palette bytes as a sequence, if a palette is present.
pub open spec fn spec_palette(info: ImageInfo) -> Option<Seq<u8>> {
    match info.palette {
        Some(p) => Some(p@),
        None => None,
    }
}

} // verus!

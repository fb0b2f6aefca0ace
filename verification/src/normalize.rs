//! Expansion of unpacked samples into canonical 8-bit RGBA, palette
//! resolution, and derivation of the one-byte-per-pixel alpha mask.

use vstd::prelude::*;

use crate::error::MergeError;
use crate::format::{sample_arity, spec_palette, BitDepth, ColorModel, ImageInfo};
use crate::unpack::{
    index_samples, read_bytes_for_bit_depth_8, read_bytes_for_usize, scaled_samples, unpack_ok,
};

verus! {

/// Channel c of pixel px in the RGBA expansion of the sample run s under a
/// non-indexed color model: gray levels are copied into R, G and B, missing
/// alpha is fully opaque.
pub open spec fn rgba_channel(s: Seq<u8>, m: ColorModel, px: int, c: int) -> u8
    recommends
        m != ColorModel::Indexed,
        0 <= c < 4,
        0 <= px,
        sample_arity(m) * (px + 1) <= s.len(),
{
    match m {
        ColorModel::Grayscale => if c == 3 {
            255u8
        } else {
            s[px]
        },
        ColorModel::GrayscaleAlpha => if c == 3 {
            s[2 * px + 1]
        } else {
            s[2 * px]
        },
        ColorModel::Rgb => if c == 3 {
            255u8
        } else {
            s[3 * px + c]
        },
        ColorModel::Rgba => s[4 * px + c],
        ColorModel::Indexed => 0u8,
    }
}

/// The RGBA bytes of a whole sample run under a non-indexed color model:
/// four bytes per pixel, one pixel per full group of samples.
pub open spec fn rgba_from_samples(s: Seq<u8>, m: ColorModel) -> Seq<u8>
    recommends
        m != ColorModel::Indexed,
        s.len() as int % sample_arity(m) == 0,
{
    Seq::new((4 * (s.len() as int / sample_arity(m))) as nat, |i: int| rgba_channel(s, m, i / 4, i % 4))
}

/// Number of whole RGB triplets in a raw palette byte run.
pub open spec fn palette_len(p: Seq<u8>) -> int {
    p.len() as int / 3
}

/// Whether every index sample addresses a palette entry.
pub open spec fn indices_in_range(idx: Seq<usize>, p: Seq<u8>) -> bool {
    forall|i: int| 0 <= i < idx.len() ==> (idx[i] as int) < palette_len(p)
}

/// The RGBA bytes of index samples resolved through a raw palette: each
/// pixel is its entry's RGB triplet, fully opaque.
pub open spec fn rgba_from_indices(idx: Seq<usize>, p: Seq<u8>) -> Seq<u8>
    recommends
        p.len() % 3 == 0,
        indices_in_range(idx, p),
{
    Seq::new(
        4 * idx.len(),
        |i: int|
            if i % 4 == 3 {
                255u8
            } else {
                p[3 * (idx[i / 4] as int) + (i % 4)]
            },
    )
}

/// What normalizing an indexed image returns: the palette must be present
/// and a whole number of triplets, the bytes must unpack at the depth, and
/// every index must address an entry; then each index becomes its entry.
pub open spec fn spec_rgba_indexed(buf: Seq<u8>, d: BitDepth, pal: Option<Seq<u8>>) -> Result<
    Seq<u8>,
    MergeError,
> {
    match pal {
        None => Err(MergeError::PaletteNotFoundWhenIndexedPng),
        Some(p) => if p.len() % 3 != 0 {
            Err(MergeError::InvalidPalette)
        } else if !unpack_ok(buf, d) {
            Err(MergeError::LessDataSize)
        } else if !indices_in_range(index_samples(buf, d), p) {
            Err(MergeError::InvalidIndexForPalette)
        } else {
            Ok(rgba_from_indices(index_samples(buf, d), p))
        },
    }
}

/// What normalizing any image returns: indexed images go through the
/// palette; all others scale their samples to 8 bits and expand them, and
/// fail when the samples end in the middle of a pixel's group.
pub open spec fn spec_buf_to_rgba(buf: Seq<u8>, info: ImageInfo) -> Result<Seq<u8>, MergeError> {
    if info.color_model == ColorModel::Indexed {
        spec_rgba_indexed(buf, info.bit_depth, spec_palette(info))
    } else if !unpack_ok(buf, info.bit_depth) {
        Err(MergeError::LessDataSize)
    } else {
        let s = scaled_samples(buf, info.bit_depth);
        if s.len() as int % sample_arity(info.color_model) != 0 {
            Err(MergeError::LessDataSize)
        } else {
            Ok(rgba_from_samples(s, info.color_model))
        }
    }
}

/// One alpha byte per pixel of an RGBA buffer: the integer average of R, G
/// and B, truncated toward zero. The buffer's own alpha is discarded.
pub open spec fn alpha_of(rgba: Seq<u8>) -> Seq<u8> {
    Seq::new(
        rgba.len() / 4,
        |i: int| ((rgba[4 * i] + rgba[4 * i + 1] + rgba[4 * i + 2]) / 3) as u8,
    )
}

/// What deriving an image's alpha mask returns: its normalized RGBA reduced
/// to one luminance byte per pixel.
pub open spec fn spec_alpha_mask(buf: Seq<u8>, info: ImageInfo) -> Result<Seq<u8>, MergeError> {
    match spec_buf_to_rgba(buf, info) {
        Ok(r) => Ok(alpha_of(r)),
        Err(e) => Err(e),
    }
}

/// How an executable byte-buffer result meets a specified one: same error,
/// or a vector viewing to the specified bytes.
pub open spec fn result_matches_bytes(
    r: Result<Vec<u8>, MergeError>,
    s: Result<Seq<u8>, MergeError>,
) -> bool {
    match r {
        Ok(v) => (s matches Ok(sq) && v@ == sq),
        Err(e) => s == Err::<Seq<u8>, MergeError>(e),
    }
}

/// The palette bytes behind an optional reference, as a sequence.
pub open spec fn opt_palette_view(p: Option<&Vec<u8>>) -> Option<Seq<u8>> {
    match p {
        Some(v) => Some(v@),
        None => None,
    }
}

/// Splits a raw palette byte run into its RGB triplets, in order. Fails
/// exactly when the byte count is not a multiple of three.
pub fn split_palette(palette_raw: &Vec<u8>) -> (r: Result<Vec<[u8; 3]>, MergeError>)
    ensures
        palette_raw@.len() % 3 == 0 ==> (r matches Ok(v) && v@.len() == palette_len(palette_raw@)
            && forall|k: int|
            #![trigger v@[k]]
            0 <= k < v@.len() ==> v@[k][0] == palette_raw@[3 * k] && v@[k][1] == palette_raw@[3 * k
                + 1] && v@[k][2] == palette_raw@[3 * k + 2]),
        palette_raw@.len() % 3 != 0 ==> r == Err::<Vec<[u8; 3]>, MergeError>(
            MergeError::InvalidPalette,
        ),
{
    if palette_raw.len() % 3 != 0 {
        return Err(MergeError::InvalidPalette);
    }
    let n: usize = palette_raw.len() / 3;
    let mut result: Vec<[u8; 3]> = Vec::new();
    let mut i: usize = 0;
    while i < n
        invariant
            palette_raw@.len() <= usize::MAX,
            palette_raw@.len() % 3 == 0,
            n == palette_len(palette_raw@),
            i <= n,
            result@.len() == i,
            forall|k: int|
                #![trigger result@[k]]
                0 <= k < i ==> result@[k][0] == palette_raw@[3 * k] && result@[k][1]
                    == palette_raw@[3 * k + 1] && result@[k][2] == palette_raw@[3 * k + 2],
        decreases n - i,
    {
        let entry: [u8; 3] = [palette_raw[3 * i], palette_raw[3 * i + 1], palette_raw[3 * i + 2]];
        result.push(entry);
        i = i + 1;
    }
    Ok(result)
}

/// Normalizes an indexed image to RGBA through its palette.
pub fn buf_to_rgba_from_indexed(
    buf: &Vec<u8>,
    bit_depth: &BitDepth,
    palette_raw: Option<&Vec<u8>>,
) -> (r: Result<Vec<u8>, MergeError>)
    ensures
        result_matches_bytes(r, spec_rgba_indexed(buf@, *bit_depth, opt_palette_view(palette_raw))),
{
    let praw = match palette_raw {
        Some(v) => v,
        None => {
            return Err(MergeError::PaletteNotFoundWhenIndexedPng);
        },
    };
    let palette = match split_palette(praw) {
        Ok(p) => p,
        Err(e) => {
            return Err(e);
        },
    };
    let indices = match read_bytes_for_usize(buf, bit_depth) {
        Ok(v) => v,
        Err(e) => {
            return Err(e);
        },
    };
    let mut out: Vec<u8> = Vec::new();
    let mut i: usize = 0;
    while i < indices.len()
        invariant
            opt_palette_view(palette_raw) == Some(praw@),
            praw@.len() % 3 == 0,
            palette@.len() == palette_len(praw@),
            forall|k: int|
                #![trigger palette@[k]]
                0 <= k < palette@.len() ==> palette@[k][0] == praw@[3 * k] && palette@[k][1]
                    == praw@[3 * k + 1] && palette@[k][2] == praw@[3 * k + 2],
            unpack_ok(buf@, *bit_depth),
            indices@ == index_samples(buf@, *bit_depth),
            i <= indices@.len(),
            out@.len() == 4 * i,
            forall|k: int| 0 <= k < i ==> (indices@[k] as int) < palette_len(praw@),
            forall|k: int|
                0 <= k < out@.len() ==> out@[k] == (if k % 4 == 3 {
                    255u8
                } else {
                    praw@[3 * (indices@[k / 4] as int) + (k % 4)]
                }),
        decreases indices@.len() - i,
    {
        let idx = indices[i];
        if idx >= palette.len() {
            proof {
                assert((index_samples(buf@, *bit_depth)[i as int] as int) >= palette_len(praw@));
                assert(!indices_in_range(index_samples(buf@, *bit_depth), praw@));
            }
            return Err(MergeError::InvalidIndexForPalette);
        }
        let entry = palette[idx];
        out.push(entry[0]);
        out.push(entry[1]);
        out.push(entry[2]);
        out.push(255);
        i = i + 1;
    }
    proof {
        assert(indices_in_range(index_samples(buf@, *bit_depth), praw@));
        assert(out@ =~= rgba_from_indices(index_samples(buf@, *bit_depth), praw@));
    }
    Ok(out)
}

/// Normalizes one decoded image to canonical RGBA: four bytes per pixel in
/// R, G, B, A order, whatever the color model and bit depth.
pub fn buf_to_rgba(buf: &Vec<u8>, info: &ImageInfo) -> (r: Result<Vec<u8>, MergeError>)
    ensures
        result_matches_bytes(r, spec_buf_to_rgba(buf@, *info)),
{
    if let ColorModel::Indexed = info.color_model {
        return buf_to_rgba_from_indexed(buf, &info.bit_depth, info.palette.as_ref());
    }
    let bytes = match read_bytes_for_bit_depth_8(buf, &info.bit_depth) {
        Ok(v) => v,
        Err(e) => {
            return Err(e);
        },
    };
    match info.color_model {
        ColorModel::Grayscale => {
            let mut out: Vec<u8> = Vec::new();
            let mut px: usize = 0;
            while px < bytes.len()
                invariant
                    px <= bytes@.len(),
                    out@.len() == 4 * px,
                    forall|k: int|
                        0 <= k < out@.len() ==> out@[k] == rgba_channel(
                            bytes@,
                            ColorModel::Grayscale,
                            k / 4,
                            k % 4,
                        ),
                decreases bytes@.len() - px,
            {
                let g = bytes[px];
                out.push(g);
                out.push(g);
                out.push(g);
                out.push(255);
                px = px + 1;
            }
            proof {
                assert(out@ =~= rgba_from_samples(bytes@, ColorModel::Grayscale));
            }
            Ok(out)
        },
        ColorModel::GrayscaleAlpha => {
            if bytes.len() % 2 != 0 {
                return Err(MergeError::LessDataSize);
            }
            let n: usize = bytes.len() / 2;
            let mut out: Vec<u8> = Vec::new();
            let mut px: usize = 0;
            while px < n
                invariant
                    bytes@.len() <= usize::MAX,
                    bytes@.len() % 2 == 0,
                    n == bytes@.len() / 2,
                    px <= n,
                    out@.len() == 4 * px,
                    forall|k: int|
                        0 <= k < out@.len() ==> out@[k] == rgba_channel(
                            bytes@,
                            ColorModel::GrayscaleAlpha,
                            k / 4,
                            k % 4,
                        ),
                decreases n - px,
            {
                let g = bytes[2 * px];
                let a = bytes[2 * px + 1];
                out.push(g);
                out.push(g);
                out.push(g);
                out.push(a);
                px = px + 1;
            }
            proof {
                assert(out@ =~= rgba_from_samples(bytes@, ColorModel::GrayscaleAlpha));
            }
            Ok(out)
        },
        ColorModel::Rgb => {
            if bytes.len() % 3 != 0 {
                return Err(MergeError::LessDataSize);
            }
            let n: usize = bytes.len() / 3;
            let mut out: Vec<u8> = Vec::new();
            let mut px: usize = 0;
            while px < n
                invariant
                    bytes@.len() <= usize::MAX,
                    bytes@.len() % 3 == 0,
                    n == bytes@.len() / 3,
                    px <= n,
                    out@.len() == 4 * px,
                    forall|k: int|
                        0 <= k < out@.len() ==> out@[k] == rgba_channel(
                            bytes@,
                            ColorModel::Rgb,
                            k / 4,
                            k % 4,
                        ),
                decreases n - px,
            {
                out.push(bytes[3 * px]);
                out.push(bytes[3 * px + 1]);
                out.push(bytes[3 * px + 2]);
                out.push(255);
                px = px + 1;
            }
            proof {
                assert(out@ =~= rgba_from_samples(bytes@, ColorModel::Rgb));
            }
            Ok(out)
        },
        ColorModel::Rgba => {
            if bytes.len() % 4 != 0 {
                return Err(MergeError::LessDataSize);
            }
            let n: usize = bytes.len() / 4;
            let mut out: Vec<u8> = Vec::new();
            let mut px: usize = 0;
            while px < n
                invariant
                    bytes@.len() <= usize::MAX,
                    bytes@.len() % 4 == 0,
                    n == bytes@.len() / 4,
                    px <= n,
                    out@.len() == 4 * px,
                    forall|k: int|
                        0 <= k < out@.len() ==> out@[k] == rgba_channel(
                            bytes@,
                            ColorModel::Rgba,
                            k / 4,
                            k % 4,
                        ),
                decreases n - px,
            {
                out.push(bytes[4 * px]);
                out.push(bytes[4 * px + 1]);
                out.push(bytes[4 * px + 2]);
                out.push(bytes[4 * px + 3]);
                px = px + 1;
            }
            proof {
                assert(out@ =~= rgba_from_samples(bytes@, ColorModel::Rgba));
            }
            Ok(out)
        },
        ColorModel::Indexed => unreached(),
    }
}

/// Reduces one decoded image to its alpha mask: the image is normalized to
/// RGBA, then each pixel becomes the truncated average of its R, G and B.
pub fn buf_to_alpha_mask(buf: &Vec<u8>, info: &ImageInfo) -> (r: Result<Vec<u8>, MergeError>)
    ensures
        result_matches_bytes(r, spec_alpha_mask(buf@, *info)),
{
    let rgba = match buf_to_rgba(buf, info) {
        Ok(v) => v,
        Err(e) => {
            return Err(e);
        },
    };
    let n: usize = rgba.len() / 4;
    let mut out: Vec<u8> = Vec::new();
    let mut i: usize = 0;
    while i < n
        invariant
            rgba@.len() <= usize::MAX,
            n == rgba@.len() / 4,
            i <= n,
            out@.len() == i,
            forall|k: int|
                0 <= k < out@.len() ==> out@[k] == ((rgba@[4 * k] + rgba@[4 * k + 1] + rgba@[4 * k
                    + 2]) / 3) as u8,
        decreases n - i,
    {
        let v: u16 = rgba[4 * i] as u16 + rgba[4 * i + 1] as u16 + rgba[4 * i + 2] as u16;
        out.push((v / 3) as u8);
        i = i + 1;
    }
    proof {
        assert(out@ =~= alpha_of(rgba@));
    }
    Ok(out)
}

/// Law: under the indexed color model, any index sample at or past the end
/// of the palette fails normalization with the out-of-range error, at every
/// bit depth.
pub proof fn lemma_indexed_out_of_range(buf: Seq<u8>, d: BitDepth, pal: Seq<u8>, i: int)
    requires
        pal.len() % 3 == 0,
        unpack_ok(buf, d),
        0 <= i < index_samples(buf, d).len(),
        index_samples(buf, d)[i] as int >= palette_len(pal),
    ensures
        spec_rgba_indexed(buf, d, Some(pal)) == Err::<Seq<u8>, MergeError>(
            MergeError::InvalidIndexForPalette,
        ),
{
    assert(!indices_in_range(index_samples(buf, d), pal));
}

} // verus!

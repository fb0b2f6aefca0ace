//! Size-validated merge of two normalized images: RGB channels from the
//! first, the alpha channel from the second's luminance mask.

use vstd::prelude::*;

use crate::error::MergeError;
use crate::format::{pixel_count, BitDepth, ColorModel, ImageInfo};
use crate::normalize::{
    alpha_of, buf_to_alpha_mask, buf_to_rgba, result_matches_bytes, rgba_from_samples,
    spec_alpha_mask, spec_buf_to_rgba,
};
use crate::unpack::scaled_samples;

verus! {

/// What adjusting a buffer to an exact byte count returns: failure when the
/// buffer falls short, the surplus silently dropped when it is longer.
pub open spec fn spec_adjust(s: Seq<u8>, size: int) -> Result<Seq<u8>, MergeError> {
    if s.len() < size {
        Err(MergeError::LessDataSize)
    } else {
        Ok(s.take(size))
    }
}

/// The merged buffer of px pixels: RGB bytes from the RGBA buffer, each
/// fourth byte from the mask.
pub open spec fn merged_pixels(rgba: Seq<u8>, mask: Seq<u8>, px: int) -> Seq<u8>
    recommends
        0 <= px,
        rgba.len() == 4 * px,
        mask.len() == px,
{
    Seq::new(
        (4 * px) as nat,
        |i: int|
            if i % 4 == 3 {
                mask[i / 4]
            } else {
                rgba[i]
            },
    )
}

/// What merging two decoded images returns: the dimensions must agree; the
/// first image is normalized to RGBA and adjusted to exactly four bytes per
/// pixel, the second is reduced to its alpha mask and adjusted to one byte
/// per pixel; then the mask overwrites the alpha channel. The whole merge
/// fails atomically on the first error in that order.
pub open spec fn spec_merge(
    png: Seq<u8>,
    png_info: ImageInfo,
    pna: Seq<u8>,
    pna_info: ImageInfo,
) -> Result<Seq<u8>, MergeError> {
    if png_info.width != pna_info.width || png_info.height != pna_info.height {
        Err(MergeError::SizePngAndPnaAreDifferent)
    } else {
        let px = pixel_count(png_info);
        match spec_buf_to_rgba(png, png_info) {
            Err(e) => Err(e),
            Ok(rgba0) => match spec_adjust(rgba0, 4 * px) {
                Err(e) => Err(e),
                Ok(rgba) => match spec_alpha_mask(pna, pna_info) {
                    Err(e) => Err(e),
                    Ok(mask0) => match spec_adjust(mask0, px) {
                        Err(e) => Err(e),
                        Ok(mask) => Ok(merged_pixels(rgba, mask, px)),
                    },
                },
            },
        }
    }
}

/// Adjusts a buffer to exactly `size` bytes: fails when it holds fewer,
/// truncates when it holds more.
pub fn adjust_length(buf: &mut Vec<u8>, size: usize) -> (r: Result<(), MergeError>)
    ensures
        old(buf)@.len() < size ==> r == Err::<(), MergeError>(MergeError::LessDataSize)
            && final(buf)@ == old(buf)@,
        old(buf)@.len() >= size ==> r == Ok::<(), MergeError>(())
            && final(buf)@ == old(buf)@.take(size as int),
{
    if buf.len() < size {
        Err(MergeError::LessDataSize)
    } else {
        buf.truncate(size);
        Ok(())
    }
}

/// Merges a decoded image with a decoded mask image of the same dimensions:
/// the output keeps the first image's RGB bytes and takes each pixel's alpha
/// from the second image's luminance. Exactly width * height * 4 bytes come
/// back on success, whatever the color models and depths; mismatched
/// dimensions fail up front with the dimension-mismatch error and nothing is
/// normalized.
pub fn merge_pna(
    png_buf: &Vec<u8>,
    png_info: &ImageInfo,
    pna_buf: &Vec<u8>,
    pna_info: &ImageInfo,
) -> (r: Result<Vec<u8>, MergeError>)
    requires
        4 * pixel_count(*png_info) <= usize::MAX as int,
    ensures
        result_matches_bytes(r, spec_merge(png_buf@, *png_info, pna_buf@, *pna_info)),
        (png_info.width != pna_info.width || png_info.height != pna_info.height) <==> r
            == Err::<Vec<u8>, MergeError>(MergeError::SizePngAndPnaAreDifferent),
        r matches Ok(v) ==> v@.len() == 4 * pixel_count(*png_info),
{
    if png_info.width != pna_info.width || png_info.height != pna_info.height {
        return Err(MergeError::SizePngAndPnaAreDifferent);
    }
    let pixel_size: usize = (png_info.width as usize) * (png_info.height as usize);

    let mut png_rgba = match buf_to_rgba(png_buf, png_info) {
        Ok(v) => v,
        Err(e) => {
            return Err(e);
        },
    };
    match adjust_length(&mut png_rgba, pixel_size * 4) {
        Ok(_) => (),
        Err(e) => {
            return Err(e);
        },
    }

    let mut pna_alpha_mask = match buf_to_alpha_mask(pna_buf, pna_info) {
        Ok(v) => v,
        Err(e) => {
            return Err(e);
        },
    };
    match adjust_length(&mut pna_alpha_mask, pixel_size) {
        Ok(_) => (),
        Err(e) => {
            return Err(e);
        },
    }

    let mut out: Vec<u8> = Vec::new();
    let mut i: usize = 0;
    while i < pixel_size
        invariant
            4 * (pixel_size as int) <= usize::MAX as int,
            png_rgba@.len() == 4 * pixel_size,
            pna_alpha_mask@.len() == pixel_size,
            i <= pixel_size,
            out@.len() == 4 * i,
            forall|k: int|
                0 <= k < out@.len() ==> out@[k] == (if k % 4 == 3 {
                    pna_alpha_mask@[k / 4]
                } else {
                    png_rgba@[k]
                }),
        decreases pixel_size - i,
    {
        out.push(png_rgba[4 * i]);
        out.push(png_rgba[4 * i + 1]);
        out.push(png_rgba[4 * i + 2]);
        out.push(pna_alpha_mask[i]);
        i = i + 1;
    }
    proof {
        assert(out@ =~= merged_pixels(png_rgba@, pna_alpha_mask@, pixel_count(*png_info)));
    }
    Ok(out)
}

/// Law: whenever the merge succeeds, the output holds exactly
/// width * height * 4 bytes, for every color model and bit depth.
pub proof fn lemma_merged_length(
    png: Seq<u8>,
    png_info: ImageInfo,
    pna: Seq<u8>,
    pna_info: ImageInfo,
)
    ensures
        spec_merge(png, png_info, pna, pna_info) matches Ok(out) ==> out.len() == 4
            * pixel_count(png_info),
{
}

/// Law: the merge is a pure function of its inputs; two results that both
/// meet the merge contract on the same inputs agree, byte for byte or error
/// for error.
pub proof fn lemma_merge_deterministic(
    r1: Result<Vec<u8>, MergeError>,
    r2: Result<Vec<u8>, MergeError>,
    png: Seq<u8>,
    png_info: ImageInfo,
    pna: Seq<u8>,
    pna_info: ImageInfo,
)
    requires
        result_matches_bytes(r1, spec_merge(png, png_info, pna, pna_info)),
        result_matches_bytes(r2, spec_merge(png, png_info, pna, pna_info)),
    ensures
        r1 is Ok <==> r2 is Ok,
        r1 is Ok ==> r1->Ok_0@ == r2->Ok_0@,
        r1 is Err ==> r1->Err_0 == r2->Err_0,
{
}

/// Law: an image already in 8-bit RGBA form, merged against itself as its
/// own mask source, keeps every RGB byte and replaces each alpha byte with
/// the truncated average of that pixel's R, G and B.
pub proof fn lemma_merge_rgba_self(buf: Seq<u8>, info: ImageInfo)
    requires
        info.color_model == ColorModel::Rgba,
        info.bit_depth == BitDepth::Eight,
        buf.len() == 4 * pixel_count(info),
    ensures
        spec_merge(buf, info, buf, info) matches Ok(out) && out.len() == buf.len() && (forall|
            i: int,
        |
            0 <= i < buf.len() ==> out[i] == (if i % 4 == 3 {
                ((buf[4 * (i / 4)] + buf[4 * (i / 4) + 1] + buf[4 * (i / 4) + 2]) / 3) as u8
            } else {
                buf[i]
            })),
{
    let px = pixel_count(info);
    assert(scaled_samples(buf, BitDepth::Eight) == buf);
    let rgba0 = rgba_from_samples(buf, ColorModel::Rgba);
    assert(rgba0 =~= buf);
    assert(spec_adjust(buf, 4 * px) == Ok::<Seq<u8>, MergeError>(buf.take(4 * px)));
    assert(buf.take(4 * px) =~= buf);
    let mask0 = alpha_of(buf);
    assert(mask0.len() == px);
    assert(mask0.take(px) =~= mask0);
    let out = merged_pixels(buf, mask0, px);
    assert(spec_merge(buf, info, buf, info) == Ok::<Seq<u8>, MergeError>(out));
    assert forall|i: int| 0 <= i < buf.len() implies out[i] == (if i % 4 == 3 {
        ((buf[4 * (i / 4)] + buf[4 * (i / 4) + 1] + buf[4 * (i / 4) + 2]) / 3) as u8
    } else {
        buf[i]
    }) by {
        if i % 4 == 3 {
            assert(out[i] == mask0[i / 4]);
        }
    }
}

/// Law: with matching dimensions, a normalized buffer shorter than the pixel
/// grid needs fails the merge with the insufficient-data error, while longer
/// buffers are truncated to exact size and never fail on the surplus.
pub proof fn lemma_merge_size_adjust(
    png: Seq<u8>,
    png_info: ImageInfo,
    pna: Seq<u8>,
    pna_info: ImageInfo,
)
    requires
        png_info.width == pna_info.width,
        png_info.height == pna_info.height,
    ensures
        (spec_buf_to_rgba(png, png_info) matches Ok(rgba) && rgba.len() < 4 * pixel_count(
            png_info,
        )) ==> spec_merge(
            png,
            png_info,
            pna,
            pna_info,
        ) == Err::<Seq<u8>, MergeError>(MergeError::LessDataSize),
        ({
            &&& spec_buf_to_rgba(png, png_info) matches Ok(rgba)
            &&& rgba.len() >= 4 * pixel_count(png_info)
            &&& spec_alpha_mask(pna, pna_info) matches Ok(mask)
            &&& mask.len() >= pixel_count(png_info)
        }) ==> (spec_merge(png, png_info, pna, pna_info) matches Ok(out) && out.len() == 4
            * pixel_count(png_info)),
{
}

} // verus!


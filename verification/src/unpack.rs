//! Extraction of fixed-width samples from raw image bytes.
//!
//! Samples are read most-significant-bits-first within each byte. Depths 1,
//! 2 and 4 divide a byte exactly, so bytes are always consumed whole; depth 8
//! passes bytes through; depth 16 consumes two bytes per sample and keeps the
//! high-order byte only, failing when a final byte has no partner.
//!
//! Channel samples are scaled to 8 bits by left-aligning the raw value and
//! filling the freed low bits with 1-bits exactly when the raw value's least
//! significant bit is 1. This asymmetric fill is the historical behavior of
//! the tool and is kept as it stands; it is not true bit-replication scaling.

use vstd::prelude::*;

use crate::error::MergeError;
use crate::format::BitDepth;

verus! {

/// The i-th 1-bit sample of a byte, counted from the most significant bit.
pub open spec fn raw_sample_1(b: u8, i: int) -> u8
    recommends
        0 <= i < 8,
{
    (b >> ((7 - i) as u8)) & 1u8
}

/// The i-th 2-bit sample of a byte, counted from the most significant bits.
pub open spec fn raw_sample_2(b: u8, i: int) -> u8
    recommends
        0 <= i < 4,
{
    (b >> ((6 - 2 * i) as u8)) & 3u8
}

/// The i-th 4-bit sample of a byte: high nibble first.
pub open spec fn raw_sample_4(b: u8, i: int) -> u8
    recommends
        0 <= i < 2,
{
    (b >> ((4 - 4 * i) as u8)) & 15u8
}

/// An n-bit raw value left-aligned into the top n bits of a byte, the low
/// 8 - n bits all 1 exactly when the raw value is odd, otherwise 0.
pub open spec fn scale_sample(v: u8, n: u8) -> u8
    recommends
        n == 1 || n == 2 || n == 4,
        v < (1u8 << n),
{
    let aligned = v << ((8 - n) as u8);
    if v & 1u8 == 1u8 {
        aligned | (0xffu8 >> n)
    } else {
        aligned
    }
}

/// Whether a byte run can be unpacked at a depth: only depth 16 can fail,
/// on an odd byte count.
pub open spec fn unpack_ok(buf: Seq<u8>, d: BitDepth) -> bool {
    d == BitDepth::Sixteen ==> buf.len() % 2 == 0
}

/// All channel samples of a byte run, scaled to 8 bits, in order.
pub open spec fn scaled_samples(buf: Seq<u8>, d: BitDepth) -> Seq<u8> {
    match d {
        BitDepth::One => Seq::new(
            buf.len() * 8,
            |i: int| scale_sample(raw_sample_1(buf[i / 8], i % 8), 1),
        ),
        BitDepth::Two => Seq::new(
            buf.len() * 4,
            |i: int| scale_sample(raw_sample_2(buf[i / 4], i % 4), 2),
        ),
        BitDepth::Four => Seq::new(
            buf.len() * 2,
            |i: int| scale_sample(raw_sample_4(buf[i / 2], i % 2), 4),
        ),
        BitDepth::Eight => buf,
        BitDepth::Sixteen => Seq::new(buf.len() / 2, |i: int| buf[2 * i]),
    }
}

/// All palette-index samples of a byte run, kept at raw magnitude, in order.
pub open spec fn index_samples(buf: Seq<u8>, d: BitDepth) -> Seq<usize> {
    match d {
        BitDepth::One => Seq::new(buf.len() * 8, |i: int| raw_sample_1(buf[i / 8], i % 8) as usize),
        BitDepth::Two => Seq::new(buf.len() * 4, |i: int| raw_sample_2(buf[i / 4], i % 4) as usize),
        BitDepth::Four => Seq::new(
            buf.len() * 2,
            |i: int| raw_sample_4(buf[i / 2], i % 2) as usize,
        ),
        BitDepth::Eight => Seq::new(buf.len(), |i: int| buf[i] as usize),
        BitDepth::Sixteen => Seq::new(
            buf.len() / 2,
            |i: int| (buf[2 * i] as int * 256 + buf[2 * i + 1] as int) as usize,
        ),
    }
}

/// Scales an n-bit raw value to 8 bits: left-align, then fill the low bits
/// with 1s exactly when the raw value is odd.
pub fn bit_to_u8(v: u8, bit: u32) -> (r: u8)
    requires
        bit == 1 || bit == 2 || bit == 4,
        v < (if bit == 1 { 2u8 } else if bit == 2 { 4u8 } else { 16u8 }),
    ensures
        r == scale_sample(v, bit as u8),
{
    let n: u8 = bit as u8;
    let aligned: u8 = v << (8 - n);
    if v & 1u8 == 1u8 {
        aligned | (0xffu8 >> n)
    } else {
        aligned
    }
}

/// The eight 1-bit samples of a byte, most significant bit first.
pub fn read_byte_depth_1(v: &u8) -> (r: [u8; 8])
    ensures
        forall|i: int| 0 <= i < 8 ==> r[i] == raw_sample_1(*v, i),
        forall|i: int| 0 <= i < 8 ==> r[i] < 2,
{
    let b: u8 = *v;
    let r: [u8; 8] = [
        (b >> 7u8) & 1u8,
        (b >> 6u8) & 1u8,
        (b >> 5u8) & 1u8,
        (b >> 4u8) & 1u8,
        (b >> 3u8) & 1u8,
        (b >> 2u8) & 1u8,
        (b >> 1u8) & 1u8,
        (b >> 0u8) & 1u8,
    ];
    proof {
        assert(forall|x: u8, s: u8| ((x >> s) & 1u8) < 2) by (bit_vector);
    }
    r
}

/// The four 2-bit samples of a byte, most significant bits first.
pub fn read_byte_depth_2(v: &u8) -> (r: [u8; 4])
    ensures
        forall|i: int| 0 <= i < 4 ==> r[i] == raw_sample_2(*v, i),
        forall|i: int| 0 <= i < 4 ==> r[i] < 4,
{
    let b: u8 = *v;
    let r: [u8; 4] = [
        (b >> 6u8) & 3u8,
        (b >> 4u8) & 3u8,
        (b >> 2u8) & 3u8,
        (b >> 0u8) & 3u8,
    ];
    proof {
        assert(forall|x: u8, s: u8| ((x >> s) & 3u8) < 4) by (bit_vector);
    }
    r
}

/// The two 4-bit samples of a byte: high nibble, then low nibble.
pub fn read_byte_depth_4(v: &u8) -> (r: [u8; 2])
    ensures
        forall|i: int| 0 <= i < 2 ==> r[i] == raw_sample_4(*v, i),
        forall|i: int| 0 <= i < 2 ==> r[i] < 16,
{
    let b: u8 = *v;
    let r: [u8; 2] = [(b >> 4u8) & 15u8, (b >> 0u8) & 15u8];
    proof {
        assert(forall|x: u8, s: u8| ((x >> s) & 15u8) < 16) by (bit_vector);
    }
    r
}

/// Unpacks a byte run into 8-bit-scaled channel samples at the given depth.
/// Fails only at depth 16 on an odd byte count.
pub fn read_bytes_for_bit_depth_8(buf: &Vec<u8>, bit_depth: &BitDepth) -> (r: Result<
    Vec<u8>,
    MergeError,
>)
    ensures
        unpack_ok(buf@, *bit_depth) ==> (r matches Ok(v) && v@ == scaled_samples(buf@, *bit_depth)),
        !unpack_ok(buf@, *bit_depth) ==> r == Err::<Vec<u8>, MergeError>(MergeError::LessDataSize),
{
    match bit_depth {
        BitDepth::One => {
            let mut out: Vec<u8> = Vec::new();
            let mut j: usize = 0;
            while j < buf.len()
                invariant
                    j <= buf@.len(),
                    out@.len() == j * 8,
                    forall|k: int|
                        0 <= k < out@.len() ==> out@[k] == scale_sample(
                            raw_sample_1(buf@[k / 8], k % 8),
                            1,
                        ),
                decreases buf@.len() - j,
            {
                let b = buf[j];
                let parts = read_byte_depth_1(&b);
                out.push(bit_to_u8(parts[0], 1));
                out.push(bit_to_u8(parts[1], 1));
                out.push(bit_to_u8(parts[2], 1));
                out.push(bit_to_u8(parts[3], 1));
                out.push(bit_to_u8(parts[4], 1));
                out.push(bit_to_u8(parts[5], 1));
                out.push(bit_to_u8(parts[6], 1));
                out.push(bit_to_u8(parts[7], 1));
                j = j + 1;
            }
            proof {
                assert(out@ =~= scaled_samples(buf@, BitDepth::One));
            }
            Ok(out)
        },
        BitDepth::Two => {
            let mut out: Vec<u8> = Vec::new();
            let mut j: usize = 0;
            while j < buf.len()
                invariant
                    j <= buf@.len(),
                    out@.len() == j * 4,
                    forall|k: int|
                        0 <= k < out@.len() ==> out@[k] == scale_sample(
                            raw_sample_2(buf@[k / 4], k % 4),
                            2,
                        ),
                decreases buf@.len() - j,
            {
                let b = buf[j];
                let parts = read_byte_depth_2(&b);
                out.push(bit_to_u8(parts[0], 2));
                out.push(bit_to_u8(parts[1], 2));
                out.push(bit_to_u8(parts[2], 2));
                out.push(bit_to_u8(parts[3], 2));
                j = j + 1;
            }
            proof {
                assert(out@ =~= scaled_samples(buf@, BitDepth::Two));
            }
            Ok(out)
        },
        BitDepth::Four => {
            let mut out: Vec<u8> = Vec::new();
            let mut j: usize = 0;
            while j < buf.len()
                invariant
                    j <= buf@.len(),
                    out@.len() == j * 2,
                    forall|k: int|
                        0 <= k < out@.len() ==> out@[k] == scale_sample(
                            raw_sample_4(buf@[k / 2], k % 2),
                            4,
                        ),
                decreases buf@.len() - j,
            {
                let b = buf[j];
                let parts = read_byte_depth_4(&b);
                out.push(bit_to_u8(parts[0], 4));
                out.push(bit_to_u8(parts[1], 4));
                j = j + 1;
            }
            proof {
                assert(out@ =~= scaled_samples(buf@, BitDepth::Four));
            }
            Ok(out)
        },
        BitDepth::Eight => {
            let mut out: Vec<u8> = Vec::new();
            let mut j: usize = 0;
            while j < buf.len()
                invariant
                    j <= buf@.len(),
                    out@ == buf@.take(j as int),
                decreases buf@.len() - j,
            {
                out.push(buf[j]);
                proof {
                    assert(out@ =~= buf@.take(j as int + 1));
                }
                j = j + 1;
            }
            proof {
                assert(out@ =~= scaled_samples(buf@, BitDepth::Eight));
            }
            Ok(out)
        },
        BitDepth::Sixteen => {
            if buf.len() % 2 != 0 {
                return Err(MergeError::LessDataSize);
            }
            let mut out: Vec<u8> = Vec::new();
            let mut j: usize = 0;
            while j < buf.len() / 2
                invariant
                    j <= buf@.len() / 2,
                    out@.len() == j,
                    forall|k: int| 0 <= k < out@.len() ==> out@[k] == buf@[2 * k],
                decreases buf@.len() / 2 - j,
            {
                out.push(buf[2 * j]);
                j = j + 1;
            }
            proof {
                assert(out@ =~= scaled_samples(buf@, BitDepth::Sixteen));
            }
            Ok(out)
        },
    }
}

/// Unpacks a byte run into raw-magnitude palette indices at the given depth.
/// Fails only at depth 16 on an odd byte count.
pub fn read_bytes_for_usize(buf: &Vec<u8>, bit_depth: &BitDepth) -> (r: Result<
    Vec<usize>,
    MergeError,
>)
    ensures
        unpack_ok(buf@, *bit_depth) ==> (r matches Ok(v) && v@ == index_samples(buf@, *bit_depth)),
        !unpack_ok(buf@, *bit_depth) ==> r == Err::<Vec<usize>, MergeError>(
            MergeError::LessDataSize,
        ),
{
    match bit_depth {
        BitDepth::One => {
            let mut out: Vec<usize> = Vec::new();
            let mut j: usize = 0;
            while j < buf.len()
                invariant
                    j <= buf@.len(),
                    out@.len() == j * 8,
                    forall|k: int|
                        0 <= k < out@.len() ==> out@[k] == raw_sample_1(buf@[k / 8], k % 8) as usize,
                decreases buf@.len() - j,
            {
                let b = buf[j];
                let parts = read_byte_depth_1(&b);
                out.push(parts[0] as usize);
                out.push(parts[1] as usize);
                out.push(parts[2] as usize);
                out.push(parts[3] as usize);
                out.push(parts[4] as usize);
                out.push(parts[5] as usize);
                out.push(parts[6] as usize);
                out.push(parts[7] as usize);
                j = j + 1;
            }
            proof {
                assert(out@ =~= index_samples(buf@, BitDepth::One));
            }
            Ok(out)
        },
        BitDepth::Two => {
            let mut out: Vec<usize> = Vec::new();
            let mut j: usize = 0;
            while j < buf.len()
                invariant
                    j <= buf@.len(),
                    out@.len() == j * 4,
                    forall|k: int|
                        0 <= k < out@.len() ==> out@[k] == raw_sample_2(buf@[k / 4], k % 4) as usize,
                decreases buf@.len() - j,
            {
                let b = buf[j];
                let parts = read_byte_depth_2(&b);
                out.push(parts[0] as usize);
                out.push(parts[1] as usize);
                out.push(parts[2] as usize);
                out.push(parts[3] as usize);
                j = j + 1;
            }
            proof {
                assert(out@ =~= index_samples(buf@, BitDepth::Two));
            }
            Ok(out)
        },
        BitDepth::Four => {
            let mut out: Vec<usize> = Vec::new();
            let mut j: usize = 0;
            while j < buf.len()
                invariant
                    j <= buf@.len(),
                    out@.len() == j * 2,
                    forall|k: int|
                        0 <= k < out@.len() ==> out@[k] == raw_sample_4(buf@[k / 2], k % 2) as usize,
                decreases buf@.len() - j,
            {
                let b = buf[j];
                let parts = read_byte_depth_4(&b);
                out.push(parts[0] as usize);
                out.push(parts[1] as usize);
                j = j + 1;
            }
            proof {
                assert(out@ =~= index_samples(buf@, BitDepth::Four));
            }
            Ok(out)
        },
        BitDepth::Eight => {
            let mut out: Vec<usize> = Vec::new();
            let mut j: usize = 0;
            while j < buf.len()
                invariant
                    j <= buf@.len(),
                    out@.len() == j,
                    forall|k: int| 0 <= k < out@.len() ==> out@[k] == buf@[k] as usize,
                decreases buf@.len() - j,
            {
                out.push(buf[j] as usize);
                j = j + 1;
            }
            proof {
                assert(out@ =~= index_samples(buf@, BitDepth::Eight));
            }
            Ok(out)
        },
        BitDepth::Sixteen => {
            if buf.len() % 2 != 0 {
                return Err(MergeError::LessDataSize);
            }
            let mut out: Vec<usize> = Vec::new();
            let mut j: usize = 0;
            while j < buf.len() / 2
                invariant
                    j <= buf@.len() / 2,
                    out@.len() == j,
                    forall|k: int|
                        0 <= k < out@.len() ==> out@[k] == (buf@[2 * k] as int * 256 + buf@[2 * k
                            + 1] as int) as usize,
                decreases buf@.len() / 2 - j,
            {
                let hi = buf[2 * j];
                let lo = buf[2 * j + 1];
                out.push((hi as usize) * 256 + (lo as usize));
                j = j + 1;
            }
            proof {
                assert(out@ =~= index_samples(buf@, BitDepth::Sixteen));
            }
            Ok(out)
        },
    }
}

} // verus!

//! Merges a PNG image with a second image of the same dimensions that serves
//! as an alpha mask: every color model and bit depth the PNG format allows is
//! first normalized to 8-bit RGBA, the mask image is reduced to one luminance
//! byte per pixel, and the output keeps the first image's RGB channels with
//! the mask's luminance as its alpha channel.
//!
//! The container format (chunk parsing, compression, checksums) and all file
//! handling are left to the caller; this crate works on the decoded pixel
//! bytes and the format metadata alone.

pub mod config;
pub mod error;
pub mod format;
pub mod merge;
pub mod normalize;
pub mod unpack;

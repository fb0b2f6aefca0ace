use vstd::prelude::*;

verus! {

/// Errors from resolving the command-line configuration.
#[derive(Clone, Copy, Debug, PartialEq, Eq, Structural)]
pub enum ConfigError {
    /// The input image path does not name an existing regular file.
    PngIsNotExist,
    /// The mask image path does not name an existing regular file.
    InvalidPnaPath,
}

/// Errors from normalizing the two images and merging them.
#[derive(Clone, Copy, Debug, PartialEq, Eq, Structural)]
pub enum MergeError {
    /// The two images do not have the same width and height.
    SizePngAndPnaAreDifferent,
    /// A buffer holds fewer bytes than the declared pixel grid needs.
    LessDataSize,
    /// The color model is indexed but no palette was supplied.
    PaletteNotFoundWhenIndexedPng,
    /// The palette byte count is not a multiple of three.
    InvalidPalette,
    /// An index sample points past the end of the palette.
    InvalidIndexForPalette,
}

} // verus!

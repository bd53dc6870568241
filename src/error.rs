use vstd::prelude::*;

verus! {

/// Errors from decoding an asset header.
#[derive(Clone, Copy, Debug, PartialEq, Eq, Structural)]
pub enum Error {
    /// The data does not start with the package magic.
    InvalidFile,
    /// The legacy version lies outside the supported range, or an object
    /// version (of either line) is not one this decoder knows; holds that value.
    UnsupportedVersion(i32),
    /// The asset was saved without any version information.
    UnversionedAsset,
    /// A fixed-width value could not be read: the data ended first.
    ParseFailure,
    /// A read of raw bytes came short, or a seek left the addressable range.
    Io,
    /// A string did not reassemble into valid UTF-8.
    InvalidString,
}

/// A name index that lies outside the name table it was resolved against.
#[derive(Clone, Copy, Debug, PartialEq, Eq, Structural)]
pub struct InvalidNameIndexError(pub u32);

} // verus!

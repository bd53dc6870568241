//! Decoding of the package summary that opens Unreal Engine asset files
//! (`.uasset`, `.umap`): the version preamble, the name, import and export
//! tables, and the scalar fields around them, across the format generations
//! of engine 4.10 to 5.3. Every decoding function is stated against a
//! specification of the byte layout and proved to follow it.

use vstd::prelude::*;

pub mod archive;
pub mod error;
pub mod header;
pub mod laws;
pub mod lookup;
pub mod records;
pub mod serialization;
pub mod stream;
pub mod strings;
pub mod thumbnails;
pub mod validation;
pub mod versions;

pub use archive::{Archive, CustomVersionSerializationFormat, SerializedFlags, SerializedObjectVersion};
pub use error::{Error, InvalidNameIndexError};
pub use header::AssetHeader;
pub use lookup::ImportIterator;
pub use records::{
    NameReference, ObjectExport, ObjectImport, ObjectImportOuter, ObjectReference, ThumbnailInfo,
    UnrealEngineVersion,
};
pub use serialization::Skippable;
pub use stream::ByteReader;
pub use thumbnails::UnrealArrayIterator;
pub use versions::{ObjectVersion, ObjectVersionUE5, PackageFlags};

verus! {

/// Results of decoding an asset.
pub type Result<T> = core::result::Result<T, Error>;

} // verus!

//! The ways an operation of the engine can fail.

use vstd::prelude::*;

verus! {

/// Why an image could not be brought into the asset cache.
#[derive(Debug, Clone, Copy, PartialEq, Eq, Structural, Hash)]
pub enum AssetError {
    /// The address is no absolute URL.
    BadUrl,
    /// The URL has no path made of segments.
    NoPathSegments,
    /// The download failed.
    Download,
    /// The downloaded bytes are no image.
    Decode,
    /// The pixels do not fill the image's dimensions.
    BufferTooSmall,
    /// The converted image could not be written to the cache.
    Store,
}

impl AssetError {
    /// A line for the log.
    pub fn message(&self) -> (r: &'static str)
        ensures
            r@ == match *self {
                AssetError::BadUrl => "relative URL without a base"@,
                AssetError::NoPathSegments => "path_segments"@,
                AssetError::Download => "download"@,
                AssetError::Decode => "decode"@,
                AssetError::BufferTooSmall => "from  vec"@,
                AssetError::Store => "store"@,
            },
    {
        match self {
            AssetError::BadUrl => "relative URL without a base",
            AssetError::NoPathSegments => "path_segments",
            AssetError::Download => "download",
            AssetError::Decode => "decode",
            AssetError::BufferTooSmall => "from  vec",
            AssetError::Store => "store",
        }
    }
}

/// Why the saved configuration could not be read or written.
#[derive(Debug, Clone, Copy, PartialEq, Eq, Structural, Hash)]
pub enum PersistenceError {
    /// The file could not be read.
    Unreadable,
    /// The file does not hold what was saved.
    Corrupt,
    /// The file could not be written.
    Unwritable,
}

/// Why a lookup gave no live room.
#[derive(Debug, PartialEq, Eq)]
pub enum LookupError {
    /// The platform answered that the room is not on the air.
    NotLive,
    /// The query failed or its answer was malformed.
    Failed(String),
}

} // verus!

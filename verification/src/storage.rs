//! Persistent boot storage records.

use vstd::prelude::*;

verus! {

/// The storage area's header, common to every version.
pub struct Header {
    /// The layout version of the record that follows.
    pub version: u8,
}

/// Version 1 of the storage record.
pub struct V1 {
    /// How many firmware updates have been applied.
    pub update_count: u16,
    /// Checksum of the application image.
    pub app_crc: u16,
}

impl V1 {
    /// The version byte identifying this record layout.
    pub const VERSION: u8 = 1;
}

} // verus!

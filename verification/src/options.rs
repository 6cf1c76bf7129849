//! Settings that accompany a request on its way to the store.
//!
//! The adapter never reads them: it hands them to the store as it got them.

use vstd::prelude::*;

verus! {

/// How the store is to carry out a lookup.
#[derive(Clone, Copy, Debug, PartialEq, Eq, Structural)]
pub struct ReadOptions {
    /// Check what is read against the checksums the store keeps.
    pub verify_checksums: bool,
    /// Keep what is read in the store's cache.
    pub fill_cache: bool,
}

/// How the store is to carry out a write or a removal.
#[derive(Clone, Copy, Debug, PartialEq, Eq, Structural)]
pub struct WriteOptions {
    /// Return only once the change has reached stable storage.
    pub sync: bool,
}

impl ReadOptions {
    /// The settings of an ordinary lookup: no checksum verification, cache filled.
    pub fn new() -> (options: ReadOptions)
        ensures
            options == (ReadOptions { verify_checksums: false, fill_cache: true }),
    {
        ReadOptions { verify_checksums: false, fill_cache: true }
    }
}

impl WriteOptions {
    /// The settings of an ordinary write: not synchronous.
    pub fn new() -> (options: WriteOptions)
        ensures
            options == (WriteOptions { sync: false }),
    {
        WriteOptions { sync: false }
    }
}

} // verus!

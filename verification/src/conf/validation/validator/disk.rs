//! Looking at the disk.
//!
//! A look at the disk answers for one moment, so nothing names its answer.
//! What the library keeps instead is the look itself: a `DiskLookup` records
//! the path looked at and what was found there, and only a look at the disk
//! makes one. Its fields are private to this module, so an answer held by the
//! rest of the library is the answer of a real look at that path.

use vstd::prelude::*;

verus! {

/// One look at the disk: the path looked at, and whether an entry was there.
pub struct DiskLookup {
    path: String,
    present: bool,
}

impl DiskLookup {
    /// The path that was looked at.
    pub closed spec fn looked_at(self) -> Seq<char> {
        self.path@
    }

    /// Whether an entry was found at that path.
    pub closed spec fn found(self) -> bool {
        self.present
    }

    /// The path looked at and the answer, as plain values.
    pub fn into_parts(self) -> (parts: (String, bool))
        ensures
            parts.0@ == self.looked_at(),
            parts.1 == self.found(),
    {
        (self.path, self.present)
    }
}

/// `Path::exists` on the path: a look at the disk. Whether an entry is there
/// depends on the disk at the moment of the call, so nothing is stated of the
/// answer; the look records the path it was made at.
#[verifier::external_body]
pub(crate) fn path_exists(path: &str) -> (lookup: DiskLookup)
    ensures
        lookup.looked_at() == path@,
{
    DiskLookup { path: path.to_string(), present: std::path::Path::new(path).exists() }
}

} // verus!

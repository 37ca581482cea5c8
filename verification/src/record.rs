//! The immutable description of a resolved package, as handed over by the
//! external dependency solver.

use vstd::prelude::*;

verus! {

/// Number of bytes in a SHA-256 digest.
pub const SHA256_LEN: usize = 32;

/// A resolved package record: what the solver decided to install and where
/// its archive can be fetched from. Identity is (name, version, sha256);
/// two records agreeing on name and version but not on the digest are
/// distinct artifacts.
pub struct PackageRecord {
    /// Normalized package name.
    pub name: String,
    /// Version string as published.
    pub version: String,
    /// Location the archive is fetched from.
    pub url: String,
    /// Declared SHA-256 digest of the archive bytes; `None` when the index
    /// entry lacks one (such a record cannot be cached).
    pub sha256: Option<Vec<u8>>,
    /// Declared size of the archive in bytes, when the index provides it.
    pub size: Option<u64>,
    /// Channel the record came from.
    pub channel: String,
}

impl PackageRecord {
    /// A well-formed record carries either no digest or a full 32-byte one.
    pub open spec fn wf(self) -> bool {
        match self.sha256 {
            Some(h) => h@.len() == SHA256_LEN,
            None => true,
        }
    }

    /// The declared digest as a sequence of bytes; only meaningful when
    /// `self.sha256 is Some`.
    pub open spec fn digest(self) -> Seq<u8>
        recommends
            self.sha256 is Some,
    {
        self.sha256->0@
    }
}

} // verus!

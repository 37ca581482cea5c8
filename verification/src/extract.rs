//! Materializing cached archives into the shared environment directory.
//! The unpacking itself is filesystem work the driver performs; this module
//! fixes the directory tree that must exist before any extraction and the
//! fail-fast discipline of the batch: archives are taken in order, and the
//! first failing archive aborts the rest, because the destination tree is
//! shared mutable state that a half-failed batch leaves in an unknown
//! shape. This is deliberately unlike the fetch stage, whose records are
//! independent and immutable once cached.

use vstd::prelude::*;

verus! {

/// Unpacks cached archives into the environment rooted at `env_dir`.
pub struct Extractor {
    /// Root of the environment directory tree.
    pub env_dir: String,
}

impl Extractor {
    /// An extractor materializing into `env_dir`.
    pub fn new(env_dir: String) -> (e: Extractor)
        ensures
            e.env_dir == env_dir,
    {
        Extractor { env_dir }
    }

    /// The directories that must exist before any archive is unpacked: the
    /// environment root and its binary, library and header subtrees, in
    /// creation order. Creating them again is harmless, so materialization
    /// is safe to run repeatedly.
    pub fn env_directories(&self) -> (dirs: Vec<String>)
        ensures
            dirs@.len() == 4,
            dirs@[0]@ == self.env_dir@,
            dirs@[1]@ == self.env_dir@ + "/bin"@,
            dirs@[2]@ == self.env_dir@ + "/lib"@,
            dirs@[3]@ == self.env_dir@ + "/include"@,
    {
        let root = self.env_dir.clone();
        let mut bin = self.env_dir.clone();
        bin.append("/bin");
        let mut lib = self.env_dir.clone();
        lib.append("/lib");
        let mut headers = self.env_dir.clone();
        headers.append("/include");
        let mut dirs: Vec<String> = Vec::new();
        dirs.push(root);
        dirs.push(bin);
        dirs.push(lib);
        dirs.push(headers);
        dirs
    }
}

/// Fail-fast progress through one materialization batch of `total`
/// archives: `done` archives are unpacked, and either the batch is still
/// going or it stopped at the first failure.
pub struct ExtractRun {
    /// Number of archives in the batch.
    pub total: usize,
    /// Archives successfully unpacked so far, from the front of the batch.
    pub done: usize,
    /// Index of the archive whose failure aborted the batch, if one did.
    pub failed: Option<usize>,
}

impl ExtractRun {
    /// The run invariant: progress stays within the batch, and a failure,
    /// once hit, is the archive right after the unpacked prefix.
    pub open spec fn wf(self) -> bool {
        &&& self.done <= self.total
        &&& (self.failed matches Some(i) ==> i == self.done && i < self.total)
    }

    /// A fresh run over `total` archives.
    pub fn new(total: usize) -> (r: ExtractRun)
        ensures
            r.wf(),
            r.total == total,
            r.done == 0,
            r.failed is None,
    {
        ExtractRun { total, done: 0, failed: None }
    }

    /// The next archive to unpack: the one after the unpacked prefix, or
    /// nothing once the batch is exhausted or aborted — after a failure no
    /// further archive is ever attempted.
    pub fn next_archive(&self) -> (nxt: Option<usize>)
        requires
            self.wf(),
        ensures
            nxt matches Some(i) ==> i == self.done && i < self.total && self.failed is None,
            nxt is None <==> (self.done == self.total || self.failed is Some),
    {
        if self.failed.is_none() && self.done < self.total {
            Some(self.done)
        } else {
            None
        }
    }

    /// Records the driver's outcome for the archive `next_archive` named:
    /// success extends the unpacked prefix, failure aborts the batch there.
    pub fn record(&mut self, ok: bool)
        requires
            old(self).wf(),
            old(self).failed is None,
            old(self).done < old(self).total,
        ensures
            final(self).wf(),
            final(self).total == old(self).total,
            ok ==> final(self).done == old(self).done + 1 && final(self).failed is None,
            !ok ==> final(self).done == old(self).done && final(self).failed == Some(
                old(self).done,
            ),
    {
        if ok {
            self.done = self.done + 1;
        } else {
            self.failed = Some(self.done);
        }
    }

    /// The whole batch was materialized: every archive unpacked, none
    /// failed.
    pub fn complete(&self) -> (c: bool)
        ensures
            c <==> (self.done == self.total && self.failed is None),
    {
        self.done == self.total && self.failed.is_none()
    }
}

} // verus!

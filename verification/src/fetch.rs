//! Settling downloaded archives into the content cache: per-record planning,
//! integrity verification of received bytes against the declared digest, and
//! aggregation of per-record failures after a whole batch has completed.
//!
//! The functions here decide; the driver around them performs the network
//! and filesystem work and feeds back what it observed. The write discipline
//! the driver must follow is the one `cache_after` describes: an entry is
//! written at its digest-derived path only once `verify_download` has
//! returned `Ok`, and an entry already present is never fetched again.

use crate::cache::{entry_file_name, entry_rel_path, locate, shard_name};
use crate::hexcode::hex_of;
use crate::record::PackageRecord;
use vstd::prelude::*;

verus! {

/// Why one record could not be brought into the cache.
#[derive(Debug)]
pub enum FetchError {
    /// The record lacks the digest needed to address the cache; the record
    /// itself is malformed and is not retried.
    MissingHash { name: String },
    /// Transport failure while fetching; does not abort sibling records.
    Network { name: String, detail: String },
    /// The downloaded bytes hash differently than declared; carries both
    /// digests, hex-rendered. The entry is never written to the cache.
    HashMismatch { name: String, expected: String, computed: String },
    /// Filesystem failure while staging the verified entry; surfaced, never
    /// swallowed.
    Io { name: String, detail: String },
}

/// The SHA-256 digest of a byte string, named so that contracts can speak
/// of it; the digest itself is computed by the outside hasher.
pub uninterp spec fn sha256_of(bs: Seq<u8>) -> Seq<u8>;

/// Relies on sha2::Sha256 through the digest traits: the SHA-256 digest is
/// a pure function of the input bytes and is exactly 32 bytes long.
#[verifier::external_body]
fn sha256_digest(bs: &Vec<u8>) -> (d: Vec<u8>)
    ensures
        d@ == sha256_of(bs@),
        d@.len() == 32,
{
    let mut hasher: sha2::Sha256 = sha2::Digest::new();
    sha2::Digest::update(&mut hasher, bs.as_slice());
    sha2::Digest::finalize(hasher).to_vec()
}

/// Byte-string equality, element by element.
fn bytes_eq(a: &Vec<u8>, b: &Vec<u8>) -> (r: bool)
    ensures
        r == (a@ == b@),
{
    if a.len() != b.len() {
        return false;
    }
    let mut i: usize = 0;
    while i < a.len()
        invariant
            i <= a.len(),
            a@.len() == b@.len(),
            forall|j: int| 0 <= j < i ==> a@[j] == b@[j],
        decreases a.len() - i,
    {
        if a[i] != b[i] {
            return false;
        }
        i = i + 1;
    }
    proof {
        assert(a@ =~= b@);
    }
    true
}

/// Where one record's archive goes under the cache root: the shard
/// directory to create on demand and the final entry path. Both follow from
/// the declared digest alone.
pub struct FetchPlan {
    /// Full path of the shard directory under the cache root.
    pub shard_dir: String,
    /// Full path of the cache entry inside the shard directory.
    pub entry_path: String,
}

/// Full path of the shard directory for digest `h` under root `root`.
pub open spec fn shard_dir_spec(root: Seq<char>, h: Seq<u8>) -> Seq<char> {
    root + "/"@ + shard_name(h)
}

/// Full path of the cache entry for digest `h` under root `root`.
pub open spec fn entry_path_spec(root: Seq<char>, h: Seq<u8>) -> Seq<char> {
    shard_dir_spec(root, h) + "/"@ + entry_file_name(h)
}

/// Brings a batch of resolved records into the content cache under a fixed
/// concurrency bound; holds the cache root every address derives from.
pub struct Downloader {
    /// Root directory of the content-addressed cache.
    pub cache_dir: String,
}

impl Downloader {
    /// A downloader writing into the cache rooted at `cache_dir`.
    pub fn new(cache_dir: String) -> (d: Downloader)
        ensures
            d.cache_dir == cache_dir,
    {
        Downloader { cache_dir }
    }

    /// Decides where a record's archive belongs in the cache, before any
    /// network activity: the digest-derived entry path, or `MissingHash`
    /// exactly when the record declares no digest.
    pub fn plan_fetch(&self, r: &PackageRecord) -> (res: Result<FetchPlan, FetchError>)
        requires
            r.wf(),
        ensures
            res is Ok <==> r.sha256 is Some,
            res matches Ok(p) ==> p.shard_dir@ == shard_dir_spec(self.cache_dir@, r.digest())
                && p.entry_path@ == entry_path_spec(self.cache_dir@, r.digest()),
            res matches Err(e) ==> e matches FetchError::MissingHash { name } && name@ == r.name@,
    {
        match &r.sha256 {
            None => Err(FetchError::MissingHash { name: r.name.clone() }),
            Some(h) => {
                let loc = locate(h);
                let mut shard_dir = self.cache_dir.clone();
                shard_dir.append("/");
                shard_dir.append(loc.shard.as_str());
                let mut entry_path = shard_dir.clone();
                entry_path.append("/");
                entry_path.append(loc.file_name.as_str());
                proof {
                    assert(shard_dir@ =~= shard_dir_spec(self.cache_dir@, r.digest()));
                    assert(entry_path@ =~= entry_path_spec(self.cache_dir@, r.digest()));
                }
                Ok(FetchPlan { shard_dir, entry_path })
            },
        }
    }

    /// Verifies downloaded bytes against the record's declared digest:
    /// succeeds exactly when the computed SHA-256 digest of the received
    /// bytes equals the declared one, and on mismatch reports both digests.
    /// Only after this returns `Ok` may the driver write the entry.
    pub fn verify_download(&self, r: &PackageRecord, bytes: &Vec<u8>) -> (res: Result<
        (),
        FetchError,
    >)
        requires
            r.wf(),
        ensures
            res is Ok <==> (r.sha256 is Some && sha256_of(bytes@) == r.digest()),
            r.sha256 is None ==> (res matches Err(e) && e matches FetchError::MissingHash { name }
                && name@ == r.name@),
            r.sha256 is Some && sha256_of(bytes@) != r.digest() ==> (res matches Err(e)
                && e matches FetchError::HashMismatch { name, expected, computed }
                && name@ == r.name@ && expected@ == hex_of(r.digest())
                && computed@ == hex_of(sha256_of(bytes@))),
    {
        match &r.sha256 {
            None => Err(FetchError::MissingHash { name: r.name.clone() }),
            Some(declared) => {
                let computed = sha256_digest(bytes);
                if bytes_eq(&computed, declared) {
                    Ok(())
                } else {
                    Err(FetchError::HashMismatch {
                        name: r.name.clone(),
                        expected: crate::hexcode::encode_hex(declared),
                        computed: crate::hexcode::encode_hex(&computed),
                    })
                }
            },
        }
    }

    /// Records a transport failure for one record, as reported by the
    /// driver; carries the record's name and the driver's description.
    pub fn network_failure(&self, r: &PackageRecord, detail: String) -> (e: FetchError)
        ensures
            e matches FetchError::Network { name, detail: d } && name@ == r.name@ && d@
                == detail@,
    {
        FetchError::Network { name: r.name.clone(), detail }
    }

    /// Records a filesystem failure for one record, as reported by the
    /// driver while staging the verified entry.
    pub fn io_failure(&self, r: &PackageRecord, detail: String) -> (e: FetchError)
        ensures
            e matches FetchError::Io { name, detail: d } && name@ == r.name@ && d@ == detail@,
    {
        FetchError::Io { name: r.name.clone(), detail }
    }
}

/// The aggregate result of a batch where at least one record failed.
#[derive(Debug)]
pub struct BatchFailure {
    /// How many records of the batch failed.
    pub failed: usize,
}

/// How many of the per-record outcomes are failures.
pub open spec fn num_failures(s: Seq<Result<(), FetchError>>) -> nat
    decreases s.len(),
{
    if s.len() == 0 {
        0
    } else {
        num_failures(s.drop_last()) + (if s.last() is Err {
            1nat
        } else {
            0nat
        })
    }
}

/// Aggregates per-record outcomes once every task of the batch has
/// completed: success exactly when no record failed, otherwise a single
/// error counting the failed records.
pub fn summarize(outcomes: &Vec<Result<(), FetchError>>) -> (res: Result<(), BatchFailure>)
    ensures
        res is Ok <==> num_failures(outcomes@) == 0,
        res matches Err(b) ==> b.failed == num_failures(outcomes@),
{
    let mut failed: usize = 0;
    let mut i: usize = 0;
    while i < outcomes.len()
        invariant
            i <= outcomes.len(),
            failed == num_failures(outcomes@.take(i as int)),
            failed <= i,
        decreases outcomes.len() - i,
    {
        proof {
            assert(outcomes@.take(i + 1).drop_last() =~= outcomes@.take(i as int));
            assert(outcomes@.take(i + 1).last() == outcomes@[i as int]);
        }
        if outcomes[i].is_err() {
            failed = failed + 1;
        }
        i = i + 1;
    }
    proof {
        assert(outcomes@.take(outcomes@.len() as int) =~= outcomes@);
    }
    if failed == 0 {
        Ok(())
    } else {
        Err(BatchFailure { failed })
    }
}

/// Under one cache root, distinct declared digests are planned to distinct
/// entry paths: no two correct records ever collide on a write target, so
/// concurrent writers need no locking beyond the permit pool.
pub proof fn lemma_plan_paths_distinct(root: Seq<char>, h1: Seq<u8>, h2: Seq<u8>)
    requires
        h1.len() == crate::record::SHA256_LEN,
        h2.len() == crate::record::SHA256_LEN,
        h1 != h2,
    ensures
        entry_path_spec(root, h1) != entry_path_spec(root, h2),
{
    crate::cache::lemma_entry_path_no_collision(h1, h2);
    reveal_strlit("/");
    assert(entry_path_spec(root, h1) =~= root + "/"@ + entry_rel_path(h1));
    assert(entry_path_spec(root, h2) =~= root + "/"@ + entry_rel_path(h2));
    if entry_path_spec(root, h1) == entry_path_spec(root, h2) {
        let k = root.len() + 1;
        assert((root + "/"@ + entry_rel_path(h1)).skip(k as int) =~= entry_rel_path(h1));
        assert((root + "/"@ + entry_rel_path(h2)).skip(k as int) =~= entry_rel_path(h2));
        assert(entry_rel_path(h1) == entry_rel_path(h2));
        assert(false);
    }
}

/// A record needs a network transfer exactly when it declares a digest and
/// no entry is present yet at its digest-derived path. `cache` holds the
/// entry paths present under the cache root, relative to it.
pub open spec fn needs_transfer(cache: Set<Seq<char>>, r: PackageRecord) -> bool {
    r.sha256 is Some && !cache.contains(entry_rel_path(r.digest()))
}

/// One record's fetch succeeds against cache contents `cache` when it
/// declares a digest and either its entry is already present or the bytes
/// the network returned hash as declared.
pub open spec fn fetch_ok(cache: Set<Seq<char>>, r: PackageRecord, body: Seq<u8>) -> bool {
    r.sha256 is Some && (cache.contains(entry_rel_path(r.digest())) || sha256_of(body)
        == r.digest())
}

/// The cache contents after one record is processed against contents
/// `cache`, the network having returned `body` on a miss: the verified
/// entry is added on a fresh successful download, and nothing changes on a
/// cache hit, a missing digest, or a digest mismatch.
pub open spec fn cache_after(cache: Set<Seq<char>>, r: PackageRecord, body: Seq<u8>) -> Set<
    Seq<char>,
> {
    if needs_transfer(cache, r) && sha256_of(body) == r.digest() {
        cache.insert(entry_rel_path(r.digest()))
    } else {
        cache
    }
}

/// Caching is idempotent: once a record's fetch has succeeded, fetching it
/// again needs no network transfer and leaves the cache — byte for byte the
/// entry paths — unchanged.
pub proof fn lemma_fetch_idempotent(
    cache: Set<Seq<char>>,
    r: PackageRecord,
    body1: Seq<u8>,
    body2: Seq<u8>,
)
    requires
        fetch_ok(cache, r, body1),
    ensures
        cache_after(cache, r, body1).contains(entry_rel_path(r.digest())),
        !needs_transfer(cache_after(cache, r, body1), r),
        cache_after(cache_after(cache, r, body1), r, body2) == cache_after(cache, r, body1),
{
}

/// Hash integrity: when the downloaded bytes hash differently than the
/// declared digest, the cache holds no entry at the digest-derived path
/// afterward — the mismatched artifact is never written.
pub proof fn lemma_mismatch_never_cached(cache: Set<Seq<char>>, r: PackageRecord, body: Seq<u8>)
    requires
        r.sha256 is Some,
        !cache.contains(entry_rel_path(r.digest())),
        sha256_of(body) != r.digest(),
    ensures
        !cache_after(cache, r, body).contains(entry_rel_path(r.digest())),
        cache_after(cache, r, body) == cache,
{
}

} // verus!

//! Content-addressed cache layout: where, under the cache root, the archive
//! for a declared digest lives. The address is derived from the declared
//! digest alone — never from a digest computed after download — so lookups
//! are possible before any network activity.

use crate::hexcode::{encode_hex, hex_of, lemma_hex_of_injective, lemma_hex_of_len};
use crate::record::SHA256_LEN;
use vstd::prelude::*;

verus! {

/// Shard directory name: the first two hex characters of the digest.
pub open spec fn shard_name(h: Seq<u8>) -> Seq<char>
    recommends
        h.len() >= 1,
{
    hex_of(h).take(2)
}

/// Archive file name inside the shard directory: the remaining hex
/// characters followed by the archive suffix.
pub open spec fn entry_file_name(h: Seq<u8>) -> Seq<char>
    recommends
        h.len() >= 1,
{
    hex_of(h).skip(2) + ".conda"@
}

/// Entry path relative to the cache root: `<shard>/<file>`. A pure function
/// of the digest, independent of download order or timing.
pub open spec fn entry_rel_path(h: Seq<u8>) -> Seq<char>
    recommends
        h.len() >= 1,
{
    shard_name(h) + "/"@ + entry_file_name(h)
}

/// The disk address of one cache entry, both parts derived from the
/// declared digest alone.
pub struct CacheLocation {
    /// Two-character shard directory name.
    pub shard: String,
    /// File name within the shard directory.
    pub file_name: String,
}

impl CacheLocation {
    /// This location is the one addressed by digest `h`.
    pub open spec fn addresses(self, h: Seq<u8>) -> bool {
        self.shard@ == shard_name(h) && self.file_name@ == entry_file_name(h)
    }
}

/// Derives the cache address of a digest: shard from the first two hex
/// characters, file name from the rest plus the archive suffix.
pub fn locate(hash: &Vec<u8>) -> (loc: CacheLocation)
    requires
        hash@.len() == SHA256_LEN,
    ensures
        loc.addresses(hash@),
{
    let hex = encode_hex(hash);
    proof {
        lemma_hex_of_len(hash@);
    }
    let len = hex.as_str().unicode_len();
    let shard = hex.as_str().substring_char(0, 2).to_owned();
    let mut file_name = hex.as_str().substring_char(2, len).to_owned();
    file_name.append(".conda");
    proof {
        assert(shard@ =~= shard_name(hash@));
        assert(file_name@ =~= entry_file_name(hash@));
    }
    CacheLocation { shard, file_name }
}

/// The cache address is deterministic: records declaring the same digest
/// are assigned the same entry path, whatever order they arrive in.
pub proof fn lemma_entry_path_deterministic(h1: Seq<u8>, h2: Seq<u8>)
    requires
        h1 == h2,
    ensures
        entry_rel_path(h1) == entry_rel_path(h2),
{
}

/// Distinct digests are assigned distinct entry paths: two artifacts that
/// differ in content never collide in the cache.
pub proof fn lemma_entry_path_no_collision(h1: Seq<u8>, h2: Seq<u8>)
    requires
        h1.len() == SHA256_LEN,
        h2.len() == SHA256_LEN,
        h1 != h2,
    ensures
        entry_rel_path(h1) != entry_rel_path(h2),
{
    lemma_hex_of_len(h1);
    lemma_hex_of_len(h2);
    reveal_strlit("/");
    reveal_strlit(".conda");
    if entry_rel_path(h1) == entry_rel_path(h2) {
        let p1 = entry_rel_path(h1);
        let p2 = entry_rel_path(h2);
        assert(hex_of(h1) =~= hex_of(h2)) by {
            assert forall|i: int| 0 <= i < 64 implies hex_of(h1)[i] == hex_of(h2)[i] by {
                if i < 2 {
                    assert(p1[i] == hex_of(h1)[i]);
                    assert(p2[i] == hex_of(h2)[i]);
                } else {
                    assert(p1[i + 1] == hex_of(h1)[i]);
                    assert(p2[i + 1] == hex_of(h2)[i]);
                }
            }
        }
        lemma_hex_of_injective(h1, h2);
        assert(h1 == h2);
        assert(false);
    }
}

} // verus!

//! Occupancy reporting for an environment directory: how many entries its
//! binary subtree holds and how many recognized library files its library
//! subtree holds. The directory listings come from the driver; an absent
//! environment directory is a normal state reported as such, never an
//! error. A read error is the driver's to surface — it must not hand over
//! partial listings.

use vstd::prelude::*;

verus! {

/// Structured status of one environment directory.
#[derive(Debug)]
pub enum EnvStatus {
    /// The environment directory does not exist; installing would create it.
    NotFound,
    /// The environment exists, with the entry counts of its subtrees.
    Present { binary_count: usize, library_count: usize },
}

/// `name` ends in the suffix `suf`, with at least one character before it.
/// With a suffix of the form `.ext` this says exactly that the name's
/// extension — the part after the last dot, a dot at the start not
/// counting — is `ext`.
pub open spec fn has_lib_suffix(name: Seq<char>, suf: Seq<char>) -> bool {
    name.len() > suf.len() && name.skip(name.len() - suf.len()) == suf
}

/// A file name naming a shared or static library on one of the host OS
/// families.
pub open spec fn names_library(name: Seq<char>) -> bool {
    ||| has_lib_suffix(name, ".so"@)
    ||| has_lib_suffix(name, ".dylib"@)
    ||| has_lib_suffix(name, ".a"@)
}

/// How many of the names name a library file.
pub open spec fn library_count(names: Seq<String>) -> nat
    decreases names.len(),
{
    if names.len() == 0 {
        0
    } else {
        library_count(names.drop_last()) + (if names_library(names.last()@) {
            1nat
        } else {
            0nat
        })
    }
}

/// Does `name` end in `suf`, with at least one character before it?
fn ends_with_proper(name: &String, suf: &str) -> (r: bool)
    ensures
        r == has_lib_suffix(name@, suf@),
{
    let n = name.as_str().unicode_len();
    let m = suf.unicode_len();
    if n <= m {
        return false;
    }
    let mut i: usize = 0;
    while i < m
        invariant
            i <= m,
            m < n,
            n == name@.len(),
            m == suf@.len(),
            forall|j: int| 0 <= j < i ==> name@[n - m + j] == suf@[j],
        decreases m - i,
    {
        if name.as_str().get_char(n - m + i) != suf.get_char(i) {
            return false;
        }
        i = i + 1;
    }
    proof {
        assert(name@.skip(n - m) =~= suf@);
    }
    true
}

/// Recognizes the library file names of the host OS families: shared
/// objects, dynamic libraries and static archives.
pub fn is_library_file(name: &String) -> (r: bool)
    ensures
        r == names_library(name@),
{
    ends_with_proper(name, ".so") || ends_with_proper(name, ".dylib") || ends_with_proper(
        name,
        ".a",
    )
}

/// Counts the library files among the given directory entries.
pub fn count_library_files(names: &Vec<String>) -> (count: usize)
    ensures
        count == library_count(names@),
{
    let mut count: usize = 0;
    let mut i: usize = 0;
    while i < names.len()
        invariant
            i <= names.len(),
            count == library_count(names@.take(i as int)),
            count <= i,
        decreases names.len() - i,
    {
        proof {
            assert(names@.take(i + 1).drop_last() =~= names@.take(i as int));
            assert(names@.take(i + 1).last() == names@[i as int]);
        }
        if is_library_file(&names[i]) {
            count = count + 1;
        }
        i = i + 1;
    }
    proof {
        assert(names@.take(names@.len() as int) =~= names@);
    }
    count
}

/// The status of an environment directory, from what the driver observed:
/// a missing directory is reported as `NotFound` — a normal state, not an
/// error — and a present one is summarized by the full count of its binary
/// entries and the library count of its library entries.
pub fn report_status(env_exists: bool, bin_entries: &Vec<String>, lib_entries: &Vec<String>) -> (st:
    EnvStatus)
    ensures
        !env_exists ==> st is NotFound,
        env_exists ==> (st matches EnvStatus::Present { binary_count, library_count: lc }
            && binary_count == bin_entries@.len() && lc == library_count(lib_entries@)),
{
    if !env_exists {
        EnvStatus::NotFound
    } else {
        EnvStatus::Present {
            binary_count: bin_entries.len(),
            library_count: count_library_files(lib_entries),
        }
    }
}

} // verus!

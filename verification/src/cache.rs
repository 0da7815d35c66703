//! The scanner's file cache: records keyed by a file's canonical path and
//! modification time, the content hashes they hold, and the totals of a
//! size-to-files map.
use vstd::prelude::*;
use vstd::utf8::encode_utf8;
use vstd::string::StringSliceAdditionalSpecFns;
use crate::text::{decimal_int, i64_to_decimal};

verus! {

/// A file's modification time: whole seconds since the Unix epoch (negative
/// before it, rounded down) and the nanoseconds beyond them.
#[derive(Clone, Copy, Debug, PartialEq, Eq, Structural)]
pub struct FileTime {
    pub secs: i64,
    pub nanos: u32,
}

/// What the cache knows of one file.
#[derive(Debug, Clone)]
pub struct CacheFile {
    pub canonical_path: String,
    pub file_size: i64,
    pub last_modified: FileTime,
    pub full_hash: Option<u64>,
    pub partial_hash: Option<u64>,
    pub path: String,
}

/// Why a cache key could not be made.
#[derive(Debug, Clone, Copy, PartialEq, Eq, Structural)]
pub enum CacheKeyError {
    /// The file was modified before the Unix epoch.
    ModifiedBeforeEpoch,
}

/// The text of a cache key: `canonical_path|seconds`.
pub open spec fn cache_key_text(canonical_path: Seq<char>, secs: int) -> Seq<char> {
    canonical_path + seq!['|'] + decimal_int(secs)
}

impl CacheFile {
    /// The cache key of a file: its canonical path and its modification
    /// time in whole seconds since the Unix epoch, as UTF-8. A file
    /// modified before the epoch has none.
    pub fn get_cache_key(&self) -> (r: Result<Vec<u8>, CacheKeyError>)
        ensures
            self.last_modified.secs < 0 ==> r == Err::<Vec<u8>, CacheKeyError>(CacheKeyError::ModifiedBeforeEpoch),
            self.last_modified.secs >= 0 ==> (r matches Ok(key) && key@ == encode_utf8(
                cache_key_text(self.canonical_path@, self.last_modified.secs as int),
            )),
    {
        if self.last_modified.secs < 0 {
            return Err(CacheKeyError::ModifiedBeforeEpoch);
        }
        let mut key = self.canonical_path.clone();
        key.append("|");
        let secs = i64_to_decimal(self.last_modified.secs);
        key.append(secs.as_str());
        proof {
            reveal_strlit("|");
            assert(key@ =~= cache_key_text(self.canonical_path@, self.last_modified.secs as int));
        }
        let text = key.as_str();
        assert(text.spec_bytes() == encode_utf8(text@));
        let bytes = vstd::slice::slice_to_vec(text.as_bytes());
        Ok(bytes)
    }
}

/// Whether every file already has its full hash in the cache.
pub fn is_fully_cached(cache_files: &Vec<CacheFile>) -> (r: bool)
    ensures
        r == (forall|i: int| 0 <= i < cache_files@.len() ==> (#[trigger] cache_files@[i]).full_hash is Some),
{
    let mut i: usize = 0;
    while i < cache_files.len()
        invariant
            i <= cache_files@.len(),
            forall|k: int| 0 <= k < i ==> (#[trigger] cache_files@[k]).full_hash is Some,
        decreases cache_files.len() - i,
    {
        if cache_files[i].full_hash.is_none() {
            return false;
        }
        i = i + 1;
    }
    true
}

/// The 64-bit xxHash digest of `data` under `seed`.
pub uninterp spec fn xxh64_digest(seed: u64, data: Seq<u8>) -> u64;

/// `twox_hash::XxHash64::with_seed(seed)`, fed `data`, finished.
#[verifier::external_body]
fn xxh64(seed: u64, data: &[u8]) -> (r: u64)
    ensures
        r == xxh64_digest(seed, data@),
{
    let mut hasher = twox_hash::XxHash64::with_seed(seed);
    std::hash::Hasher::write(&mut hasher, data);
    std::hash::Hasher::finish(&hasher)
}

/// The bytes a partial hash covers: the first kilobyte of a file.
pub const HASH_LENGTH: usize = 1024;

/// The content hash of a file's bytes: xxHash64 with seed 0.
pub fn hash_data(data: &[u8]) -> (r: u64)
    ensures
        r == xxh64_digest(0, data@),
{
    xxh64(0, data)
}

/// The partial hash of a file whose first bytes are `head`: the hash of
/// at most its first `HASH_LENGTH` bytes.
pub fn build_partial_hash(head: &[u8]) -> (r: u64)
    ensures
        r == xxh64_digest(
            0,
            if head@.len() <= HASH_LENGTH {
                head@
            } else {
                head@.subrange(0, HASH_LENGTH as int)
            },
        ),
{
    if head.len() <= HASH_LENGTH {
        hash_data(head)
    } else {
        let mut portion: Vec<u8> = Vec::new();
        let mut i: usize = 0;
        while i < HASH_LENGTH
            invariant
                i <= HASH_LENGTH < head@.len(),
                portion@ == head@.subrange(0, i as int),
            decreases HASH_LENGTH - i,
        {
            portion.push(head[i]);
            assert(head@.subrange(0, i + 1) =~= head@.subrange(0, i as int).push(head@[i as int]));
            i = i + 1;
        }
        hash_data(portion.as_slice())
    }
}

/// The full hash of a file's contents.
pub fn build_full_hash(contents: &[u8]) -> (r: u64)
    ensures
        r == xxh64_digest(0, contents@),
{
    hash_data(contents)
}

/// The totals of a map from file size to the files of that size.
#[derive(Debug, Clone, Copy)]
pub struct SizeToFilesMapStats {
    pub key_count: u64,
    pub total_distinct_size: u64,
    pub total_file_count: usize,
    pub total_size: u64,
}

/// The sum of the sizes of entries `0..n`.
pub open spec fn sum_sizes(entries: Seq<(u64, usize)>, n: int) -> int
    decreases n,
{
    if n <= 0 {
        0
    } else {
        sum_sizes(entries, n - 1) + entries[n - 1].0
    }
}

/// The number of files of entries `0..n`.
pub open spec fn sum_counts(entries: Seq<(u64, usize)>, n: int) -> int
    decreases n,
{
    if n <= 0 {
        0
    } else {
        sum_counts(entries, n - 1) + entries[n - 1].1
    }
}

/// The bytes of the files of entries `0..n`.
pub open spec fn sum_bytes(entries: Seq<(u64, usize)>, n: int) -> int
    decreases n,
{
    if n <= 0 {
        0
    } else {
        sum_bytes(entries, n - 1) + entries[n - 1].0 * entries[n - 1].1
    }
}

proof fn lemma_sums_grow(entries: Seq<(u64, usize)>, m: int, n: int)
    requires
        0 <= m <= n <= entries.len(),
    ensures
        sum_sizes(entries, m) <= sum_sizes(entries, n),
        sum_counts(entries, m) <= sum_counts(entries, n),
        sum_bytes(entries, m) <= sum_bytes(entries, n),
    decreases n - m,
{
    if m < n {
        lemma_sums_grow(entries, m, n - 1);
        assert(entries[n - 1].0 * entries[n - 1].1 >= 0) by (nonlinear_arith);
    }
}

/// The totals of a size-to-files map given as `(size, file count)` entries:
/// the number of sizes, their sum, the number of files, and their bytes.
pub fn size_map_stats(entries: &Vec<(u64, usize)>) -> (r: SizeToFilesMapStats)
    requires
        entries@.len() <= u64::MAX,
        sum_sizes(entries@, entries@.len() as int) <= u64::MAX,
        sum_counts(entries@, entries@.len() as int) <= usize::MAX,
        sum_bytes(entries@, entries@.len() as int) <= u64::MAX,
    ensures
        r.key_count == entries@.len(),
        r.total_distinct_size == sum_sizes(entries@, entries@.len() as int),
        r.total_file_count == sum_counts(entries@, entries@.len() as int),
        r.total_size == sum_bytes(entries@, entries@.len() as int),
{
    let n = entries.len();
    let mut key_count: u64 = 0;
    let mut total_distinct_size: u64 = 0;
    let mut total_file_count: usize = 0;
    let mut total_size: u64 = 0;
    let mut i: usize = 0;
    while i < n
        invariant
            n == entries@.len(),
            n <= u64::MAX,
            i <= n,
            key_count == i,
            total_distinct_size == sum_sizes(entries@, i as int),
            total_file_count == sum_counts(entries@, i as int),
            total_size == sum_bytes(entries@, i as int),
            sum_sizes(entries@, n as int) <= u64::MAX,
            sum_counts(entries@, n as int) <= usize::MAX,
            sum_bytes(entries@, n as int) <= u64::MAX,
        decreases n - i,
    {
        let (size, count) = entries[i];
        proof {
            lemma_sums_grow(entries@, i + 1, n as int);
            assert(size * count >= 0) by (nonlinear_arith);
            assert(size * count <= sum_bytes(entries@, i + 1));
        }
        key_count = key_count + 1;
        total_distinct_size = total_distinct_size + size;
        total_file_count = total_file_count + count;
        total_size = total_size + size * (count as u64);
        i = i + 1;
    }
    SizeToFilesMapStats { key_count, total_distinct_size, total_file_count, total_size }
}

} // verus!

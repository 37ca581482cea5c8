use lux::cache::locate;
use lux::fetch::{summarize, Downloader, FetchError};
use lux::hexcode::encode_hex;
use lux::pool::FetchPool;
use lux::record::PackageRecord;

const EMPTY_SHA: &str = "e3b0c44298fc1c149afbf4c8996fb92427ae41e4649b934ca495991b7852b855";
const HELLO_WORLD_SHA: &str = "b94d27b9934d3e08a52e52d7da7dabfac484efe37a5380ee9088f7ace2efcde9";

fn hex_to_bytes(s: &str) -> Vec<u8> {
    let chars: Vec<char> = s.chars().collect();
    let mut out = Vec::new();
    let mut i = 0;
    while i < chars.len() {
        let hi = chars[i].to_digit(16).unwrap() as u8;
        let lo = chars[i + 1].to_digit(16).unwrap() as u8;
        out.push(hi * 16 + lo);
        i += 2;
    }
    out
}

fn record(name: &str, hash: Option<Vec<u8>>) -> PackageRecord {
    PackageRecord {
        name: name.to_string(),
        version: "1.0.0".to_string(),
        url: format!("https://example.invalid/{}-1.0.0.conda", name),
        sha256: hash,
        size: None,
        channel: "conda-forge".to_string(),
    }
}

/// One record's trip through the fetch stage against an in-memory cache
/// model, following the library's write discipline: check presence at the
/// planned path, download only on a miss, write only after verification.
fn drive_fetch(
    d: &Downloader,
    cache: &mut Vec<String>,
    r: &PackageRecord,
    body: &[u8],
    transfers: &mut usize,
) -> Result<(), FetchError> {
    let plan = match d.plan_fetch(r) {
        Ok(p) => p,
        Err(e) => return Err(e),
    };
    if cache.iter().any(|p| *p == plan.entry_path) {
        return Ok(());
    }
    *transfers += 1;
    let bytes: Vec<u8> = body.to_vec();
    match d.verify_download(r, &bytes) {
        Ok(()) => {
            cache.push(plan.entry_path);
            Ok(())
        }
        Err(e) => Err(e),
    }
}

#[test]
fn encode_hex_renders_lowercase_pairs() {
    assert_eq!(encode_hex(&vec![0x00, 0xff, 0x10, 0xab]), "00ff10ab");
    assert_eq!(encode_hex(&vec![]), "");
    assert_eq!(encode_hex(&vec![0x0f]), "0f");
}

#[test]
fn locate_shards_by_declared_digest() {
    let mut hash = vec![0xab, 0xcd];
    hash.extend(std::iter::repeat(0u8).take(30));
    let loc = locate(&hash);
    assert_eq!(loc.shard, "ab");
    let expected_file = format!("cd{}.conda", "00".repeat(30));
    assert_eq!(loc.file_name, expected_file);
}

#[test]
fn plan_fetch_derives_paths_from_declared_digest() {
    let d = Downloader::new("/var/cache/pool".to_string());
    let r = record("demo", Some(hex_to_bytes(HELLO_WORLD_SHA)));
    match d.plan_fetch(&r) {
        Ok(plan) => {
            assert_eq!(plan.shard_dir, "/var/cache/pool/b9");
            assert_eq!(
                plan.entry_path,
                format!("/var/cache/pool/b9/{}.conda", &HELLO_WORLD_SHA[2..])
            );
        }
        Err(e) => panic!("expected a plan, got {:?}", e),
    }
}

#[test]
fn plan_fetch_rejects_missing_hash() {
    let d = Downloader::new("/var/cache/pool".to_string());
    let r = record("nohash", None);
    match d.plan_fetch(&r) {
        Ok(_) => panic!("a record without a digest must not be planned"),
        Err(FetchError::MissingHash { name }) => assert_eq!(name, "nohash"),
        Err(e) => panic!("expected MissingHash, got {:?}", e),
    }
}

#[test]
fn verify_download_accepts_matching_digest() {
    let d = Downloader::new("/var/cache/pool".to_string());
    let r = record("demo", Some(hex_to_bytes(HELLO_WORLD_SHA)));
    let body: Vec<u8> = b"hello world".to_vec();
    assert!(d.verify_download(&r, &body).is_ok());
}

#[test]
fn verify_download_accepts_empty_body_with_its_digest() {
    let d = Downloader::new("/var/cache/pool".to_string());
    let r = record("empty", Some(hex_to_bytes(EMPTY_SHA)));
    assert!(d.verify_download(&r, &vec![]).is_ok());
}

#[test]
fn verify_download_reports_both_digests_on_mismatch() {
    let d = Downloader::new("/var/cache/pool".to_string());
    let r = record("demo", Some(hex_to_bytes(EMPTY_SHA)));
    let body: Vec<u8> = b"hello world".to_vec();
    match d.verify_download(&r, &body) {
        Ok(()) => panic!("mismatched bytes must not verify"),
        Err(FetchError::HashMismatch {
            name,
            expected,
            computed,
        }) => {
            assert_eq!(name, "demo");
            assert_eq!(expected, EMPTY_SHA);
            assert_eq!(computed, HELLO_WORLD_SHA);
        }
        Err(e) => panic!("expected HashMismatch, got {:?}", e),
    }
}

#[test]
fn driver_failure_constructors_carry_the_record() {
    let d = Downloader::new("/var/cache/pool".to_string());
    let r = record("net", Some(hex_to_bytes(EMPTY_SHA)));
    match d.network_failure(&r, "connection reset".to_string()) {
        FetchError::Network { name, detail } => {
            assert_eq!(name, "net");
            assert_eq!(detail, "connection reset");
        }
        e => panic!("expected Network, got {:?}", e),
    }
    match d.io_failure(&r, "disk full".to_string()) {
        FetchError::Io { name, detail } => {
            assert_eq!(name, "net");
            assert_eq!(detail, "disk full");
        }
        e => panic!("expected Io, got {:?}", e),
    }
}

#[test]
fn summarize_counts_failures() {
    let mut outcomes: Vec<Result<(), FetchError>> = Vec::new();
    for i in 0..10 {
        if i % 3 == 0 && i > 0 {
            outcomes.push(Err(FetchError::HashMismatch {
                name: format!("pkg{}", i),
                expected: EMPTY_SHA.to_string(),
                computed: HELLO_WORLD_SHA.to_string(),
            }));
        } else {
            outcomes.push(Ok(()));
        }
    }
    match summarize(&outcomes) {
        Ok(()) => panic!("a batch with failures must not summarize as success"),
        Err(b) => assert_eq!(b.failed, 3),
    }
}

#[test]
fn summarize_empty_and_all_ok() {
    assert!(summarize(&vec![]).is_ok());
    let outcomes: Vec<Result<(), FetchError>> = (0..7).map(|_| Ok(())).collect();
    assert!(summarize(&outcomes).is_ok());
}

#[test]
fn fetching_twice_transfers_once() {
    let d = Downloader::new("/var/cache/pool".to_string());
    let r = record("demo", Some(hex_to_bytes(HELLO_WORLD_SHA)));
    let mut cache: Vec<String> = Vec::new();
    let mut transfers = 0usize;
    assert!(drive_fetch(&d, &mut cache, &r, b"hello world", &mut transfers).is_ok());
    assert_eq!(transfers, 1);
    assert_eq!(cache.len(), 1);
    let snapshot = cache.clone();
    assert!(drive_fetch(&d, &mut cache, &r, b"hello world", &mut transfers).is_ok());
    assert_eq!(transfers, 1, "the second fetch must be a cache hit");
    assert_eq!(cache, snapshot, "a cache hit must leave the cache unchanged");
}

#[test]
fn mismatched_download_is_never_cached() {
    let d = Downloader::new("/var/cache/pool".to_string());
    let r = record("bad", Some(hex_to_bytes(EMPTY_SHA)));
    let mut cache: Vec<String> = Vec::new();
    let mut transfers = 0usize;
    let res = drive_fetch(&d, &mut cache, &r, b"hello world", &mut transfers);
    assert!(matches!(res, Err(FetchError::HashMismatch { .. })));
    assert!(cache.is_empty(), "a mismatched artifact must not enter the cache");
    let planned = d.plan_fetch(&r).unwrap();
    assert!(!cache.iter().any(|p| *p == planned.entry_path));
}

#[test]
fn end_to_end_three_records() {
    let d = Downloader::new("/var/cache/pool".to_string());
    let cached = record("already-cached", Some(hex_to_bytes(HELLO_WORLD_SHA)));
    let fresh = record("fresh", Some(hex_to_bytes(EMPTY_SHA)));
    let bad = record("bad-hash", Some(vec![0u8; 32]));

    let mut cache: Vec<String> = Vec::new();
    let cached_path = d.plan_fetch(&cached).unwrap().entry_path;
    cache.push(cached_path.clone());

    let mut transfers = 0usize;
    let mut outcomes: Vec<Result<(), FetchError>> = Vec::new();
    outcomes.push(drive_fetch(&d, &mut cache, &cached, b"hello world", &mut transfers));
    outcomes.push(drive_fetch(&d, &mut cache, &fresh, b"", &mut transfers));
    outcomes.push(drive_fetch(&d, &mut cache, &bad, b"hello world", &mut transfers));

    assert_eq!(transfers, 2, "only the two uncached records may touch the network");
    assert!(cache.iter().any(|p| *p == cached_path), "the cached record must stay");
    let fresh_path = d.plan_fetch(&fresh).unwrap().entry_path;
    assert!(cache.iter().any(|p| *p == fresh_path), "the fresh record must be cached");
    let bad_path = d.plan_fetch(&bad).unwrap().entry_path;
    assert!(!cache.iter().any(|p| *p == bad_path), "the mismatched record must be absent");
    assert_eq!(cache.len(), 2);

    assert!(outcomes[0].is_ok());
    assert!(outcomes[1].is_ok());
    assert!(matches!(&outcomes[2], Err(FetchError::HashMismatch { name, .. }) if name == "bad-hash"));
    match summarize(&outcomes) {
        Ok(()) => panic!("the batch must report its one failure"),
        Err(b) => assert_eq!(b.failed, 1),
    }
}

#[test]
fn pool_bounds_in_flight_tasks() {
    let mut pool = FetchPool::new(10, 3);
    let mut started = 0usize;
    while pool.try_start() {
        started += 1;
        assert!(pool.in_flight <= pool.max_parallel);
    }
    assert_eq!(started, 3, "exactly max_parallel tasks may start at once");
    assert_eq!(pool.in_flight, 3);
    assert!(!pool.try_start());

    let mut completed = 0usize;
    while !pool.all_done() {
        pool.finish(completed % 2 == 0);
        completed += 1;
        while pool.try_start() {
            started += 1;
            assert!(pool.in_flight <= pool.max_parallel);
        }
    }
    assert_eq!(started, 10);
    assert_eq!(completed, 10);
    assert_eq!(pool.succeeded + pool.failed, 10);
    assert_eq!(pool.pending, 0);
    assert_eq!(pool.in_flight, 0);
}

#[test]
fn pool_with_no_records_is_done_at_once() {
    let mut pool = FetchPool::new(0, 5);
    assert!(!pool.try_start());
    assert!(pool.all_done());
}

use latest_sender::duration::Duration;
use latest_sender::file_finder::{select_latest, select_with_cutoff, CandidateFile, FileFinder};
use std::time::{Duration as TimeSpan, SystemTime};
use tempfile::{Builder, NamedTempFile, TempDir};

fn cand(path: &str, modified_millis: i64) -> CandidateFile {
    CandidateFile { path: path.to_string(), modified_millis }
}

fn file_in(dir: &TempDir, stem: &str, suffix: &str) -> NamedTempFile {
    Builder::new()
        .prefix(stem)
        .suffix(suffix)
        .rand_bytes(0)
        .tempfile_in(dir.path())
        .unwrap()
}

fn set_mtime(f: &NamedTempFile, t: SystemTime) {
    f.as_file().set_modified(t).unwrap();
}

#[test]
fn test_find_latest_file() {
    let temp_dir = TempDir::new().unwrap();
    let dir = temp_dir.path().to_str().unwrap().to_string();
    let base = SystemTime::UNIX_EPOCH + TimeSpan::from_secs(1_700_000_000);

    let f1 = file_in(&temp_dir, "file1", ".txt");
    set_mtime(&f1, base);
    let f2 = file_in(&temp_dir, "file2", ".txt");
    set_mtime(&f2, base + TimeSpan::from_millis(10));
    let f3 = file_in(&temp_dir, "file3", ".txt");
    set_mtime(&f3, base + TimeSpan::from_millis(20));
    let other = file_in(&temp_dir, "other", ".log");
    set_mtime(&other, base + TimeSpan::from_millis(25));

    let result = FileFinder::find_latest_file(&dir, "*.txt").unwrap();

    assert!(result.is_some());
    assert_eq!(result.unwrap(), format!("{}/file3.txt", dir));
}

#[test]
fn test_find_latest_file_no_match() {
    let temp_dir = TempDir::new().unwrap();
    let dir = temp_dir.path().to_str().unwrap().to_string();

    let _file = file_in(&temp_dir, "file", ".log");

    let result = FileFinder::find_latest_file(&dir, "*.txt").unwrap();

    assert!(result.is_none());
}

#[test]
fn test_find_latest_file_empty_directory() {
    let temp_dir = TempDir::new().unwrap();
    let dir = temp_dir.path().to_str().unwrap().to_string();

    let result = FileFinder::find_latest_file(&dir, "*.txt").unwrap();

    assert!(result.is_none());
}

#[test]
fn test_find_latest_file_with_period_recent() {
    let temp_dir = TempDir::new().unwrap();
    let dir = temp_dir.path().to_str().unwrap().to_string();

    let recent = file_in(&temp_dir, "recent", ".txt");
    set_mtime(&recent, SystemTime::now());

    let result =
        FileFinder::find_latest_file_with_period(&dir, "*.txt", Some(Duration::hours(1))).unwrap();

    assert!(result.is_some());
    assert_eq!(result.unwrap(), format!("{}/recent.txt", dir));
}

#[test]
fn test_find_latest_file_with_period_old() {
    let temp_dir = TempDir::new().unwrap();
    let dir = temp_dir.path().to_str().unwrap().to_string();

    let old = file_in(&temp_dir, "old", ".txt");
    set_mtime(&old, SystemTime::now() - TimeSpan::from_secs(10));

    let result =
        FileFinder::find_latest_file_with_period(&dir, "*.txt", Some(Duration::milliseconds(1)))
            .unwrap();

    assert!(result.is_none());
}

#[test]
fn test_find_latest_file_with_period_none() {
    let temp_dir = TempDir::new().unwrap();
    let dir = temp_dir.path().to_str().unwrap().to_string();

    let f = file_in(&temp_dir, "test", ".txt");
    set_mtime(&f, SystemTime::UNIX_EPOCH + TimeSpan::from_secs(1));

    let result = FileFinder::find_latest_file_with_period(&dir, "*.txt", None).unwrap();

    assert!(result.is_some());
    assert_eq!(result.unwrap(), format!("{}/test.txt", dir));
}

#[test]
fn invalid_pattern_is_a_hard_failure() {
    let temp_dir = TempDir::new().unwrap();
    let dir = temp_dir.path().to_str().unwrap().to_string();

    let result = FileFinder::find_latest_file(&dir, "a[");
    let e = result.unwrap_err();
    assert!(e.message().contains("Failed to read glob pattern"));
}

#[test]
fn selection_picks_maximum_timestamp() {
    let v = vec![cand("file1.txt", 0), cand("file2.txt", 10), cand("file3.txt", 20)];
    assert_eq!(select_latest(&v), Some(2));
}

#[test]
fn selection_breaks_ties_first_seen() {
    let v = vec![cand("a.txt", 5), cand("b.txt", 5), cand("c.txt", 3)];
    assert_eq!(select_latest(&v), Some(0));
}

#[test]
fn selection_of_nothing_is_none() {
    let v: Vec<CandidateFile> = Vec::new();
    assert_eq!(select_latest(&v), None);
}

#[test]
fn cutoff_filters_stale_best_candidate() {
    let v = vec![cand("file1.txt", 0), cand("file2.txt", 10), cand("file3.txt", 20)];
    // now - best = 22 - 20 > 1: the best match is stale.
    assert_eq!(select_with_cutoff(&v, Some(Duration::milliseconds(1)), 22), None);
    // now - best = 22 - 20 <= 5: fresh enough.
    assert_eq!(select_with_cutoff(&v, Some(Duration::milliseconds(5)), 22), Some(2));
    // A timestamp exactly at the cutoff is not stale.
    assert_eq!(select_with_cutoff(&v, Some(Duration::milliseconds(2)), 22), Some(2));
}

#[test]
fn no_window_ignores_age() {
    let v = vec![cand("ancient.txt", -1_000_000)];
    assert_eq!(select_with_cutoff(&v, None, i64::MAX), Some(0));
}

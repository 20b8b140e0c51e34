use vstd::prelude::*;
use vstd::string::StringExecFns;
use std::io::Write;
use crate::duration::Duration;

verus! {

/// A regular file seen during a scan, paired with its last-modified time in
/// milliseconds since the Unix epoch.
pub struct CandidateFile {
    pub path: String,
    pub modified_millis: i64,
}

/// The candidate at `i` is the selected one: no candidate is newer, and every
/// earlier candidate is strictly older, so on equal timestamps the first-seen
/// candidate wins.
pub open spec fn is_latest(s: Seq<CandidateFile>, i: int) -> bool {
    &&& 0 <= i < s.len()
    &&& forall|j: int| 0 <= j < s.len() ==> s[j].modified_millis <= s[i].modified_millis
    &&& forall|j: int| 0 <= j < i ==> s[j].modified_millis < s[i].modified_millis
}

/// A candidate modified at `t` is stale exactly when a window is given and
/// `t` lies strictly before `now - window`; with no window nothing is stale.
pub open spec fn is_stale(t: int, window: Option<Duration>, now: int) -> bool {
    window matches Some(w) && t < now - w.millis
}

/// At most one candidate satisfies `is_latest`, so "the newest match" is
/// well defined.
pub proof fn lemma_latest_unique(s: Seq<CandidateFile>, i: int, j: int)
    requires
        is_latest(s, i),
        is_latest(s, j),
    ensures
        i == j,
{
    if i < j {
        assert(s[i].modified_millis < s[j].modified_millis);
        assert(s[j].modified_millis <= s[i].modified_millis);
    } else if j < i {
        assert(s[j].modified_millis < s[i].modified_millis);
        assert(s[i].modified_millis <= s[j].modified_millis);
    }
}

/// Without a window no timestamp is ever stale: selection then ignores the
/// current time entirely and behaves as if the window were infinite.
pub proof fn lemma_no_window_never_stale(t: int, now: int)
    ensures
        !is_stale(t, None, now),
{
}

/// Every non-empty candidate list has a latest candidate.
pub proof fn lemma_latest_exists(s: Seq<CandidateFile>)
    requires
        s.len() > 0,
    ensures
        exists|i: int| is_latest(s, i),
    decreases s.len(),
{
    if s.len() == 1 {
        assert(is_latest(s, 0));
    } else {
        let t = s.drop_last();
        lemma_latest_exists(t);
        let j = choose|j: int| is_latest(t, j);
        let last = s.len() - 1;
        if s[last].modified_millis > s[j].modified_millis {
            assert(is_latest(s, last)) by {
                assert forall|k: int| 0 <= k < s.len()
                    implies s[k].modified_millis <= s[last].modified_millis by {
                    if k < last {
                        assert(t[k] == s[k]);
                        assert(t[k].modified_millis <= t[j].modified_millis);
                    }
                }
                assert forall|k: int| 0 <= k < last
                    implies s[k].modified_millis < s[last].modified_millis by {
                    assert(t[k] == s[k]);
                    assert(t[k].modified_millis <= t[j].modified_millis);
                }
            }
        } else {
            assert(is_latest(s, j)) by {
                assert forall|k: int| 0 <= k < s.len()
                    implies s[k].modified_millis <= s[j].modified_millis by {
                    if k < last {
                        assert(t[k] == s[k]);
                        assert(t[k].modified_millis <= t[j].modified_millis);
                    }
                }
                assert forall|k: int| 0 <= k < j
                    implies s[k].modified_millis < s[j].modified_millis by {
                    assert(t[k] == s[k]);
                    assert(t[k].modified_millis < t[j].modified_millis);
                }
            }
        }
    }
}

/// The outcome that selection with the recency cutoff is bound to: the
/// index of the latest candidate where one exists and is fresh enough, and
/// nothing otherwise.
pub open spec fn cutoff_selects(s: Seq<CandidateFile>, window: Option<Duration>, now: int, r: Option<int>) -> bool {
    match r {
        Some(i) => is_latest(s, i) && !is_stale(s[i].modified_millis as int, window, now),
        None => s.len() == 0
            || (forall|i: int| is_latest(s, i) ==> is_stale(s[i].modified_millis as int, window, now)),
    }
}

/// The index as selection speaks of it.
pub open spec fn opt_index(r: Option<usize>) -> Option<int> {
    match r {
        Some(i) => Some(i as int),
        None => None,
    }
}

/// With no window, selection is the plain newest-match rule, independent of
/// the current time: any two outcomes it binds for the same candidates, at
/// any two times, coincide, and a candidate comes back exactly when one
/// exists — the latest one.
pub proof fn lemma_no_window_selects_plain(s: Seq<CandidateFile>, now1: int, now2: int, r1: Option<int>, r2: Option<int>)
    requires
        cutoff_selects(s, None, now1, r1),
        cutoff_selects(s, None, now2, r2),
    ensures
        r1 == r2,
        r1 matches Some(i) ==> is_latest(s, i),
        (r1 is None) <==> s.len() == 0,
{
    if s.len() > 0 {
        lemma_latest_exists(s);
        let w = choose|i: int| is_latest(s, i);
        assert(!is_stale(s[w].modified_millis as int, None, now1));
        assert(!is_stale(s[w].modified_millis as int, None, now2));
        match (r1, r2) {
            (Some(i1), Some(i2)) => {
                lemma_latest_unique(s, i1, i2);
            }
            (None, _) => {
                assert(is_stale(s[w].modified_millis as int, None, now1));
            }
            (_, None) => {
                assert(is_stale(s[w].modified_millis as int, None, now2));
            }
        }
    }
}

/// Which position is selected depends on the modification times alone, not
/// on how the paths are spelled: two scans that see the same files in the
/// same order agree on the selection, however each file's path is written.
pub proof fn lemma_selection_ignores_path_spelling(a: Seq<CandidateFile>, b: Seq<CandidateFile>, i: int)
    requires
        a.len() == b.len(),
        forall|j: int| 0 <= j < a.len() ==> a[j].modified_millis == b[j].modified_millis,
    ensures
        is_latest(a, i) == is_latest(b, i),
{
}

/// Returns the index of the candidate with the maximum modification time,
/// ties resolved in favour of the first-seen candidate, or `None` exactly
/// when there are no candidates.
pub fn select_latest(candidates: &Vec<CandidateFile>) -> (r: Option<usize>)
    ensures
        (r is None) <==> candidates@.len() == 0,
        r matches Some(i) ==> is_latest(candidates@, i as int),
{
    if candidates.len() == 0 {
        return None;
    }
    let mut best: usize = 0;
    let mut k: usize = 1;
    while k < candidates.len()
        invariant
            0 <= best < k <= candidates@.len(),
            forall|j: int| 0 <= j < k ==> candidates@[j].modified_millis <= candidates@[best as int].modified_millis,
            forall|j: int| 0 <= j < best ==> candidates@[j].modified_millis < candidates@[best as int].modified_millis,
        decreases candidates@.len() - k,
    {
        if candidates[k].modified_millis > candidates[best].modified_millis {
            best = k;
        }
        k = k + 1;
    }
    Some(best)
}

/// Selection with the recency cutoff applied: the newest candidate is
/// returned unless a window is given and that candidate is stale; with no
/// window a candidate is returned exactly when one exists.
pub fn select_with_cutoff(candidates: &Vec<CandidateFile>, window: Option<Duration>, now: i64) -> (r: Option<usize>)
    ensures
        r matches Some(i) ==> is_latest(candidates@, i as int)
            && !is_stale(candidates@[i as int].modified_millis as int, window, now as int),
        (r is None) <==> (candidates@.len() == 0
            || (forall|i: int| is_latest(candidates@, i)
                ==> is_stale(candidates@[i].modified_millis as int, window, now as int))),
        window is None ==> ((r is Some) <==> candidates@.len() > 0),
        cutoff_selects(candidates@, window, now as int, opt_index(r)),
{
    match select_latest(candidates) {
        None => None,
        Some(i) => {
            let t = candidates[i].modified_millis;
            match window {
                None => Some(i),
                Some(w) => {
                    if (t as i128) < (now as i128) - (w.millis as i128) {
                        proof {
                            assert forall|j: int| is_latest(candidates@, j)
                                implies is_stale(candidates@[j].modified_millis as int, window, now as int) by {
                                lemma_latest_unique(candidates@, j, i as int);
                            }
                        }
                        None
                    } else {
                        Some(i)
                    }
                }
            }
        }
    }
}

/// Why a selection attempt failed as a whole, as opposed to finding no
/// match, which is a normal empty result.
#[derive(Debug)]
pub enum FinderError {
    /// The search expression was not a valid glob pattern.
    Pattern(String),
}

impl FinderError {
    /// A human-readable rendering of the error.
    pub fn message(&self) -> (m: String)
        ensures
            self matches FinderError::Pattern(c) ==> m@ == "Failed to read glob pattern: "@ + c@,
    {
        match self {
            FinderError::Pattern(c) => {
                let mut m = "Failed to read glob pattern: ".to_owned();
                m.append(c.as_str());
                m
            }
        }
    }
}

/// Whether the glob grammar accepts `pattern`: acceptance is decided by
/// compiling the pattern, before anything on disk is looked at, so it is a
/// function of the characters alone.
pub uninterp spec fn glob_ok(pattern: Seq<char>) -> bool;

/// Relies on glob::glob: expands a shell-glob pattern against the
/// filesystem, yielding the matching paths in alphabetical order; a
/// relative pattern is resolved against the process working directory.
/// Which paths come back depends on what is on disk, so nothing is assumed
/// of them: the verified selection logic takes them as arguments. `Err`
/// carries glob's description of a malformed pattern, and comes exactly on
/// the patterns the glob grammar rejects. Entries that fail to resolve, and
/// paths that are not valid Unicode, are reported on standard error and
/// skipped.
#[verifier::external_body]
fn glob_paths(pattern: &str) -> (r: Result<Vec<String>, String>)
    ensures
        (r is Ok) == glob_ok(pattern@),
{
    let entries = match glob::glob(pattern) {
        Ok(entries) => entries,
        Err(e) => return Err(format!("{e}")),
    };
    let mut paths: Vec<String> = Vec::new();
    for entry in entries {
        match entry.map(|p| p.to_str().map(|s| s.to_string())) {
            Ok(Some(s)) => paths.push(s),
            Ok(None) => { let _ = writeln!(std::io::stderr(), "Error reading glob entry: non-unicode path"); }
            Err(e) => { let _ = writeln!(std::io::stderr(), "Error reading glob entry: {e:?}"); }
        }
    }
    Ok(paths)
}

/// Relies on Path::metadata, Metadata::is_file and Metadata::modified, with
/// chrono's SystemTime conversion, to read a path's kind and last-modified
/// time as one snapshot. The three calls share one metadata handle, so they
/// cannot be split into separate wrappers without naming the metadata type,
/// which this crate cannot declare. Returns `None`, after reporting the
/// cause on standard error, where the path is not a regular file or its
/// metadata cannot be read: a failing entry never aborts a scan.
#[verifier::external_body]
fn file_modified_millis(path: &str) -> (r: Option<i64>)
{
    let report = |what: &str, e: std::io::Error| {
        let _ = writeln!(std::io::stderr(), "Failed to get {what} for {path:?}: {e}");
    };
    let md = match std::path::Path::new(path).metadata() {
        Ok(md) => md,
        Err(e) => { report("metadata", e); return None; }
    };
    if !md.is_file() { return None; }
    match md.modified() {
        Ok(t) => Some(chrono::DateTime::<chrono::Local>::from(t).timestamp_millis()),
        Err(e) => { report("modified time", e); None }
    }
}

/// Relies on chrono::Local::now for the current wall-clock time. Nothing is
/// assumed of the value: the verified cutoff logic takes it as an argument.
#[verifier::external_body]
fn now_millis() -> (r: i64)
{
    chrono::Local::now().timestamp_millis()
}

/// Scans directories for the newest file matching a glob pattern.
pub struct FileFinder;

impl FileFinder {
    /// The newest regular file under `directory` matching `pattern`, with no
    /// recency cutoff, or `Ok(None)` when nothing matches. Equal timestamps
    /// go to the first-seen candidate, and the scan sees paths in
    /// alphabetical order, so ties resolve deterministically to the
    /// lexicographically first path. Which file that is depends on what is
    /// on disk; the selection rule itself is stated on `select_with_cutoff`,
    /// which this function applies to the scanned candidates. A rejected
    /// search expression is the one hard failure, distinguishable from the
    /// normal empty result; a file with a non-Unicode name is reported and
    /// skipped, never selected.
    pub fn find_latest_file(directory: &str, pattern: &str) -> (r: Result<Option<String>, FinderError>)
        ensures
            (r is Err) <==> !glob_ok(directory@ + "/"@ + pattern@),
    {
        Self::find_latest_file_with_period(directory, pattern, None)
    }

    /// As `find_latest_file`, but when `check_period` is given the newest
    /// match is only returned if it was modified within that window of the
    /// current time; an older match yields `Ok(None)`. A malformed pattern
    /// is the one hard failure; unreadable entries are skipped. The search
    /// expression joins `directory` and `pattern` with a separator; a
    /// relative directory is resolved against the process working directory
    /// by the glob expansion, so the match set does not depend on how the
    /// directory is spelled, though the returned path keeps its spelling.
    pub fn find_latest_file_with_period(directory: &str, pattern: &str, check_period: Option<Duration>) -> (r: Result<Option<String>, FinderError>)
        ensures
            (r is Err) <==> !glob_ok(directory@ + "/"@ + pattern@),
    {
        let mut search = directory.to_owned();
        search.append("/");
        search.append(pattern);
        let paths = match glob_paths(search.as_str()) {
            Ok(paths) => paths,
            Err(e) => {
                return Err(FinderError::Pattern(e));
            }
        };
        let mut candidates: Vec<CandidateFile> = Vec::new();
        let mut i: usize = 0;
        while i < paths.len()
            invariant
                i <= paths@.len(),
            decreases paths@.len() - i,
        {
            let p = paths[i].clone();
            match file_modified_millis(p.as_str()) {
                Some(m) => candidates.push(CandidateFile { path: p, modified_millis: m }),
                None => (),
            }
            i = i + 1;
        }
        let now = now_millis();
        match select_with_cutoff(&candidates, check_period, now) {
            Some(best) => {
                let chosen = candidates.swap_remove(best);
                Ok(Some(chosen.path))
            }
            None => Ok(None),
        }
    }
}

} // verus!

//! The scan's result: the discovered files with their recorded sizes, the
//! derived totals, and the purge plan that a run mode allows.

use vstd::prelude::*;
use crate::error::CliError;
use crate::mode::RunMode;
use crate::text::{spec_lines, split_lines, views_of};

verus! {

/// One discovered file: its path as the backend reported it, and the size
/// recorded for it at scan time.
pub struct FileEntry {
    pub path: String,
    pub size: u64,
}

/// The size recorded for an entry: what the metadata query reported, or zero
/// when the query failed.
pub open spec fn spec_recorded_size(size: Option<u64>) -> u64 {
    match size {
        Some(s) => s,
        None => 0,
    }
}

/// The paths of a sequence of entries, in order.
pub open spec fn spec_paths(entries: Seq<FileEntry>) -> Seq<Seq<char>> {
    entries.map_values(|e: FileEntry| e.path@)
}

/// The sum of the recorded sizes of a sequence of entries.
pub open spec fn sum_sizes(entries: Seq<FileEntry>) -> nat
    decreases entries.len(),
{
    if entries.len() == 0 {
        0
    } else {
        sum_sizes(entries.drop_last()) + entries.last().size as nat
    }
}

proof fn lemma_sum_take_step(entries: Seq<FileEntry>, k: int)
    requires
        0 <= k < entries.len(),
    ensures
        sum_sizes(entries.take(k + 1)) == sum_sizes(entries.take(k)) + entries[k].size,
{
    assert(entries.take(k + 1).drop_last() =~= entries.take(k));
    assert(entries.take(k + 1).last() == entries[k]);
}

proof fn lemma_sum_take_le(entries: Seq<FileEntry>, k: int)
    requires
        0 <= k <= entries.len(),
    ensures
        sum_sizes(entries.take(k)) <= sum_sizes(entries),
    decreases entries.len() - k,
{
    if k == entries.len() {
        assert(entries.take(k) =~= entries);
    } else {
        lemma_sum_take_step(entries, k);
        lemma_sum_take_le(entries, k + 1);
    }
}

/// The ordered record of one scan: every matching file the backend reported,
/// in traversal order, each with the size recorded for it.
pub struct ScanResult {
    pub entries: Vec<FileEntry>,
}

impl ScanResult {
    /// An empty result, before anything is recorded.
    pub fn new() -> (r: ScanResult)
        ensures
            r.entries@.len() == 0,
    {
        ScanResult { entries: Vec::new() }
    }

    /// Records one discovered path. A size the metadata query could not
    /// deliver degrades to zero rather than failing the scan; the caller is
    /// told when that happened so it can emit a diagnostic.
    pub fn record(&mut self, path: String, size: Option<u64>) -> (degraded: bool)
        ensures
            final(self).entries@ == old(self).entries@.push(
                (FileEntry { path, size: spec_recorded_size(size) }),
            ),
            degraded == (size is None),
    {
        match size {
            Some(s) => {
                self.entries.push(FileEntry { path, size: s });
                false
            },
            None => {
                self.entries.push(FileEntry { path, size: 0 });
                true
            },
        }
    }

    /// How many files were recorded.
    pub fn count(&self) -> (c: usize)
        ensures
            c == self.entries@.len(),
    {
        self.entries.len()
    }

    /// The sum of all recorded sizes, or `None` when that sum does not fit
    /// a 64-bit count.
    pub fn total_size(&self) -> (t: Option<u64>)
        ensures
            match t {
                Some(v) => v == sum_sizes(self.entries@),
                None => sum_sizes(self.entries@) > u64::MAX,
            },
    {
        let n = self.entries.len();
        let mut acc: u64 = 0;
        let mut i: usize = 0;
        proof {
            assert(self.entries@.take(0) =~= Seq::<FileEntry>::empty());
        }
        while i < n
            invariant
                i <= n,
                n == self.entries@.len(),
                acc == sum_sizes(self.entries@.take(i as int)),
            decreases n - i,
        {
            proof {
                lemma_sum_take_step(self.entries@, i as int);
            }
            match acc.checked_add(self.entries[i].size) {
                Some(next) => {
                    acc = next;
                },
                None => {
                    proof {
                        lemma_sum_take_le(self.entries@, i + 1);
                    }
                    return None;
                },
            }
            i += 1;
        }
        proof {
            assert(self.entries@.take(n as int) =~= self.entries@);
        }
        Some(acc)
    }

    /// The recorded paths, in order.
    pub fn paths(&self) -> (v: Vec<String>)
        ensures
            views_of(v@) == spec_paths(self.entries@),
    {
        let n = self.entries.len();
        let mut v: Vec<String> = Vec::new();
        let mut i: usize = 0;
        proof {
            assert(views_of(v@) =~~= spec_paths(self.entries@.take(0)));
        }
        while i < n
            invariant
                i <= n,
                n == self.entries@.len(),
                views_of(v@) == spec_paths(self.entries@.take(i as int)),
            decreases n - i,
        {
            let ghost prev = v@;
            let p = self.entries[i].path.clone();
            v.push(p);
            proof {
                assert(views_of(v@) =~~= views_of(prev).push(p@));
                assert(spec_paths(self.entries@.take(i + 1)) =~~= spec_paths(
                    self.entries@.take(i as int),
                ).push(self.entries@[i as int].path@));
            }
            i += 1;
        }
        proof {
            assert(self.entries@.take(n as int) =~= self.entries@);
        }
        v
    }
}

/// The exact paths a run is allowed to delete: every recorded path when the
/// mode is `Purge`, and nothing at all in any other mode.
pub fn deletion_plan(mode: RunMode, scan: &ScanResult) -> (plan: Vec<String>)
    ensures
        mode is Purge ==> views_of(plan@) == spec_paths(scan.entries@),
        !(mode is Purge) ==> plan@.len() == 0,
{
    match mode {
        RunMode::Purge => scan.paths(),
        _ => Vec::new(),
    }
}

/// The paths shown as "would be removed": every recorded path when the mode
/// is `DryRunPurge` — exactly what a purge would delete — and nothing
/// otherwise.
pub fn removal_preview(mode: RunMode, scan: &ScanResult) -> (preview: Vec<String>)
    ensures
        mode is DryRunPurge ==> views_of(preview@) == spec_paths(scan.entries@),
        !(mode is DryRunPurge) ==> preview@.len() == 0,
{
    match mode {
        RunMode::DryRunPurge => scan.paths(),
        _ => Vec::new(),
    }
}

/// Validates the listing backend's outcome and splits its standard output
/// into one path per line. A reported non-zero exit is a scan failure that
/// carries the captured standard error; an absent exit code (the backend was
/// killed by a signal) is tolerated, as the backend itself reported nothing
/// wrong.
pub fn parse_listing(status: Option<i32>, stdout: &str, stderr: &str) -> (r: Result<
    Vec<String>,
    CliError,
>)
    ensures
        r is Ok <==> (status is None || status->0 == 0),
        r is Ok ==> views_of(r->Ok_0@) == spec_lines(stdout@),
        r is Err ==> (r->Err_0 matches CliError::ScanBackendFailure { message } && message@
            == stderr@),
{
    match status {
        Some(code) => {
            if code != 0 {
                Err(CliError::ScanBackendFailure { message: stderr.to_owned() })
            } else {
                Ok(split_lines(stdout))
            }
        },
        None => Ok(split_lines(stdout)),
    }
}

} // verus!

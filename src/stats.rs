use vstd::prelude::*;

use crate::domain::ExtractStats;

verus! {

/// `x + n`, held at `u64::MAX` once the counter is full.
pub open spec fn sat_add(x: u64, n: nat) -> u64 {
    if x + n <= u64::MAX {
        (x + n) as u64
    } else {
        u64::MAX
    }
}

/// Counters after one more directory was opened; a weight directory also
/// counts toward `safetensors_directories`.
pub open spec fn after_directory(s: ExtractStats, has_marker: bool) -> ExtractStats {
    ExtractStats {
        directories_scanned: sat_add(s.directories_scanned, 1),
        safetensors_directories: if has_marker {
            sat_add(s.safetensors_directories, 1)
        } else {
            s.safetensors_directories
        },
        ..s
    }
}

/// Counters after one more archive was checked.
pub open spec fn after_archive(s: ExtractStats, extracted: bool) -> ExtractStats {
    ExtractStats {
        zip_files_checked: sat_add(s.zip_files_checked, 1),
        extracted: if extracted {
            sat_add(s.extracted, 1)
        } else {
            s.extracted
        },
        ..s
    }
}

fn bump(x: u64) -> (r: u64)
    ensures
        r == sat_add(x, 1),
{
    if x < u64::MAX {
        x + 1
    } else {
        x
    }
}

/// The live counters of one run. They only grow, and every snapshot taken
/// of them is consistent.
pub struct StatsAggregator {
    current: ExtractStats,
}

impl View for StatsAggregator {
    type V = ExtractStats;

    closed spec fn view(&self) -> ExtractStats {
        self.current
    }
}

impl StatsAggregator {
    /// The counters are consistent.
    pub open spec fn wf(&self) -> bool {
        self@.is_consistent()
    }

    /// Counters at zero, at the start of a run.
    pub fn new() -> (r: StatsAggregator)
        ensures
            r.wf(),
            r@.directories_scanned == 0,
            r@.safetensors_directories == 0,
            r@.zip_files_checked == 0,
            r@.extracted == 0,
    {
        StatsAggregator { current: ExtractStats::zero() }
    }

    /// A copy of the counters as they stand.
    pub fn snapshot(&self) -> (r: ExtractStats)
        requires
            self.wf(),
        ensures
            r == self@,
            r.is_consistent(),
    {
        self.current
    }

    /// Counts one directory, and one weight directory when `has_marker`.
    pub fn begin_directory(&mut self, has_marker: bool)
        requires
            old(self).wf(),
        ensures
            final(self).wf(),
            final(self)@ == after_directory(old(self)@, has_marker),
    {
        let mut s = self.current;
        s.directories_scanned = bump(s.directories_scanned);
        if has_marker {
            s.safetensors_directories = bump(s.safetensors_directories);
        }
        self.current = s;
    }

    /// Counts one checked archive, and one extraction when `extracted`.
    pub fn record_archive(&mut self, extracted: bool)
        requires
            old(self).wf(),
        ensures
            final(self).wf(),
            final(self)@ == after_archive(old(self)@, extracted),
    {
        let mut s = self.current;
        s.zip_files_checked = bump(s.zip_files_checked);
        if extracted {
            s.extracted = bump(s.extracted);
        }
        self.current = s;
    }
}

} // verus!

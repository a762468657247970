use vstd::prelude::*;

use crate::classify::{classify_files, plan_of, DirectoryPlan};
use crate::domain::ExtractStats;
use crate::stats::{after_archive, after_directory, StatsAggregator};

verus! {

/// What inspecting one archive for the target entry came to.
#[derive(Debug, PartialEq, Eq)]
pub enum ZipEntryOutcome {
    Extracted,
    NotFound,
    InvalidZip(String),
}

/// How many of `outcomes` are extractions.
pub open spec fn count_extracted(outcomes: Seq<ZipEntryOutcome>) -> nat
    decreases outcomes.len(),
{
    if outcomes.len() == 0 {
        0
    } else {
        count_extracted(outcomes.drop_last()) + if outcomes.last() is Extracted {
            1nat
        } else {
            0nat
        }
    }
}

/// Counters after the archives whose outcomes are `outcomes` were checked, in order.
pub open spec fn after_archives(s: ExtractStats, outcomes: Seq<ZipEntryOutcome>) -> ExtractStats
    decreases outcomes.len(),
{
    if outcomes.len() == 0 {
        s
    } else {
        after_archive(after_archives(s, outcomes.drop_last()), outcomes.last() is Extracted)
    }
}

/// Counters after one directory's lane: the directory whose files are named
/// `names` is opened, then its planned archives are checked with `outcomes`.
pub open spec fn after_lane(
    s: ExtractStats,
    names: Seq<Vec<u8>>,
    outcomes: Seq<ZipEntryOutcome>,
) -> ExtractStats {
    after_archives(after_directory(s, plan_of(names).0), outcomes)
}

/// What is reported once an archive was checked.
pub struct ArchiveReport {
    /// The reason, when the archive could not be read.
    pub invalid_reason: Option<String>,
    /// The counters after this archive.
    pub snapshot: ExtractStats,
}

/// Opens the lane of a directory whose files are named `file_names`: counts
/// it, and returns its plan and the counters to report.
pub fn open_directory(stats: &mut StatsAggregator, file_names: &Vec<Vec<u8>>) -> (r: (
    DirectoryPlan,
    ExtractStats,
))
    requires
        old(stats).wf(),
    ensures
        final(stats).wf(),
        (r.0.has_marker, r.0.archives@) == plan_of(file_names@),
        final(stats)@ == after_directory(old(stats)@, r.0.has_marker),
        r.1 == final(stats)@,
        r.1.is_consistent(),
{
    let plan = classify_files(file_names);
    stats.begin_directory(plan.has_marker);
    let snapshot = stats.snapshot();
    (plan, snapshot)
}

/// Records the outcome of one archive of a lane: counts it, and returns what
/// to report.
pub fn close_archive(stats: &mut StatsAggregator, outcome: ZipEntryOutcome) -> (r: ArchiveReport)
    requires
        old(stats).wf(),
    ensures
        final(stats).wf(),
        final(stats)@ == after_archive(old(stats)@, outcome is Extracted),
        r.snapshot == final(stats)@,
        r.snapshot.is_consistent(),
        r.invalid_reason == (match outcome {
            ZipEntryOutcome::InvalidZip(reason) => Some(reason),
            _ => None,
        }),
{
    let extracted = match &outcome {
        ZipEntryOutcome::Extracted => true,
        _ => false,
    };
    stats.record_archive(extracted);
    let invalid_reason = match outcome {
        ZipEntryOutcome::InvalidZip(reason) => Some(reason),
        _ => None,
    };
    ArchiveReport { invalid_reason, snapshot: stats.snapshot() }
}

} // verus!

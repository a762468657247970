use vstd::prelude::*;

use crate::classify::{archive_positions, listing_has_marker, plan_of};
use crate::domain::ExtractStats;
use crate::lane::{after_archives, after_lane, count_extracted, ZipEntryOutcome};
use crate::stats::{after_archive, after_directory, sat_add};

verus! {

/// Saturating additions chain: adding `a` then `b` is adding `a + b`.
pub proof fn lemma_sat_add_chain(x: u64, a: nat, b: nat)
    ensures
        sat_add(sat_add(x, a), b) == sat_add(x, a + b),
{
}

/// No more extractions than outcomes.
pub proof fn lemma_count_extracted_bounded(outcomes: Seq<ZipEntryOutcome>)
    ensures
        count_extracted(outcomes) <= outcomes.len(),
    decreases outcomes.len(),
{
    if outcomes.len() > 0 {
        lemma_count_extracted_bounded(outcomes.drop_last());
    }
}

/// Checking archives in turn adds their number to `zip_files_checked` and
/// their extractions to `extracted`, and touches nothing else.
pub proof fn lemma_after_archives_closed_form(s: ExtractStats, outcomes: Seq<ZipEntryOutcome>)
    ensures
        after_archives(s, outcomes) == (ExtractStats {
            zip_files_checked: sat_add(s.zip_files_checked, outcomes.len()),
            extracted: sat_add(s.extracted, count_extracted(outcomes)),
            ..s
        }),
    decreases outcomes.len(),
{
    if outcomes.len() > 0 {
        let rest = outcomes.drop_last();
        lemma_after_archives_closed_form(s, rest);
        lemma_sat_add_chain(s.zip_files_checked, rest.len(), 1);
        let e: nat = if outcomes.last() is Extracted { 1 } else { 0 };
        lemma_sat_add_chain(s.extracted, count_extracted(rest), e);
    }
}

/// Every snapshot of a run is consistent: starting from consistent counters,
/// opening a directory and then checking any prefix of its archives leaves
/// `safetensors_directories <= directories_scanned` and
/// `extracted <= zip_files_checked`.
pub proof fn law_snapshots_stay_consistent(
    s: ExtractStats,
    names: Seq<Vec<u8>>,
    outcomes: Seq<ZipEntryOutcome>,
    k: int,
)
    requires
        s.is_consistent(),
        0 <= k <= outcomes.len(),
    ensures
        after_directory(s, plan_of(names).0).is_consistent(),
        after_archives(after_directory(s, plan_of(names).0), outcomes.take(k)).is_consistent(),
        after_lane(s, names, outcomes).is_consistent(),
{
    let d = after_directory(s, plan_of(names).0);
    lemma_after_archives_closed_form(d, outcomes.take(k));
    lemma_count_extracted_bounded(outcomes.take(k));
    lemma_after_archives_closed_form(d, outcomes);
    lemma_count_extracted_bounded(outcomes);
}

/// One outcome counts as one extraction exactly when it is one, and checking
/// it is one step.
pub proof fn lemma_single_outcome(o: Seq<ZipEntryOutcome>)
    requires
        o.len() == 1,
    ensures
        count_extracted(o) == if o[0] is Extracted { 1nat } else { 0nat },
        forall|s: ExtractStats| #[trigger] after_archives(s, o) == after_archive(s, o[0] is Extracted),
{
    let e = Seq::<ZipEntryOutcome>::empty();
    assert(o.drop_last() =~= e);
    assert(o.last() == o[0]);
    assert(count_extracted(e) == 0);
    assert forall|s: ExtractStats| #[trigger] after_archives(s, o) == after_archive(s, o[0] is Extracted) by {
        assert(after_archives(s, e) == s);
    }
}

/// A weight directory with a single archive that holds the target entry adds
/// exactly one extraction and one checked archive.
pub proof fn law_single_archive_with_entry_extracts_once(s: ExtractStats, names: Seq<Vec<u8>>)
    requires
        listing_has_marker(names),
        archive_positions(names).len() == 1,
    ensures
        plan_of(names).1.len() == 1,
        after_lane(s, names, seq![ZipEntryOutcome::Extracted]).extracted == sat_add(s.extracted, 1),
        after_lane(s, names, seq![ZipEntryOutcome::Extracted]).zip_files_checked == sat_add(
            s.zip_files_checked,
            1,
        ),
{
    let o = seq![ZipEntryOutcome::Extracted];
    lemma_single_outcome(o);
    lemma_after_archives_closed_form(after_directory(s, true), o);
}

/// Archives that lack the target entry extract nothing.
pub proof fn law_missing_entry_extracts_nothing(
    s: ExtractStats,
    names: Seq<Vec<u8>>,
    outcomes: Seq<ZipEntryOutcome>,
)
    requires
        forall|i: int| 0 <= i < outcomes.len() ==> #[trigger] outcomes[i] is NotFound,
    ensures
        count_extracted(outcomes) == 0,
        after_lane(s, names, outcomes).extracted == s.extracted,
    decreases outcomes.len(),
{
    if outcomes.len() > 0 {
        let rest = outcomes.drop_last();
        assert forall|i: int| 0 <= i < rest.len() implies #[trigger] rest[i] is NotFound by {
            assert(rest[i] == outcomes[i]);
        }
        law_missing_entry_extracts_nothing(s, names, rest);
        assert(outcomes.last() is NotFound);
    }
    lemma_after_archives_closed_form(after_directory(s, plan_of(names).0), outcomes);
}

/// A directory without a marker file plans no archive, whatever its files
/// hold, and only counts as a scanned directory.
pub proof fn law_unmarked_directory_is_not_inspected(s: ExtractStats, names: Seq<Vec<u8>>)
    requires
        !listing_has_marker(names),
    ensures
        !plan_of(names).0,
        plan_of(names).1.len() == 0,
        after_lane(s, names, seq![]) == (ExtractStats {
            directories_scanned: sat_add(s.directories_scanned, 1),
            ..s
        }),
{
}

/// Two lanes add up: the counters after both are the counters before, plus
/// each lane's directories, weight directories, checked archives and
/// extractions.
pub proof fn law_lanes_add_up(
    s: ExtractStats,
    names1: Seq<Vec<u8>>,
    outcomes1: Seq<ZipEntryOutcome>,
    names2: Seq<Vec<u8>>,
    outcomes2: Seq<ZipEntryOutcome>,
)
    ensures
        after_lane(after_lane(s, names1, outcomes1), names2, outcomes2) == (ExtractStats {
            directories_scanned: sat_add(s.directories_scanned, 2),
            safetensors_directories: sat_add(
                s.safetensors_directories,
                (if plan_of(names1).0 { 1nat } else { 0nat }) + (if plan_of(names2).0 {
                    1nat
                } else {
                    0nat
                }),
            ),
            zip_files_checked: sat_add(s.zip_files_checked, outcomes1.len() + outcomes2.len()),
            extracted: sat_add(s.extracted, count_extracted(outcomes1) + count_extracted(outcomes2)),
        }),
{
    let m1 = plan_of(names1).0;
    let m2 = plan_of(names2).0;
    let d1 = after_directory(s, m1);
    lemma_after_archives_closed_form(d1, outcomes1);
    let t1 = after_lane(s, names1, outcomes1);
    let d2 = after_directory(t1, m2);
    lemma_after_archives_closed_form(d2, outcomes2);
    lemma_sat_add_chain(s.directories_scanned, 1, 1);
    let a: nat = if m1 { 1 } else { 0 };
    let b: nat = if m2 { 1 } else { 0 };
    lemma_sat_add_chain(s.safetensors_directories, a, b);
    lemma_sat_add_chain(s.zip_files_checked, outcomes1.len(), outcomes2.len());
    lemma_sat_add_chain(s.extracted, count_extracted(outcomes1), count_extracted(outcomes2));
}

/// An unreadable archive is counted as checked, not as extracted, and the
/// run goes on: a later lane's extraction is still counted in full.
pub proof fn law_invalid_archive_does_not_stop_the_run(
    s: ExtractStats,
    bad_names: Seq<Vec<u8>>,
    reason: String,
    good_names: Seq<Vec<u8>>,
)
    requires
        listing_has_marker(bad_names),
        listing_has_marker(good_names),
    ensures
        after_archive(s, false) == after_archives(s, seq![ZipEntryOutcome::InvalidZip(reason)]),
        after_lane(
            after_lane(s, bad_names, seq![ZipEntryOutcome::InvalidZip(reason)]),
            good_names,
            seq![ZipEntryOutcome::Extracted],
        ).extracted == sat_add(s.extracted, 1),
{
    let bad = seq![ZipEntryOutcome::InvalidZip(reason)];
    let good = seq![ZipEntryOutcome::Extracted];
    lemma_single_outcome(bad);
    lemma_single_outcome(good);
    law_lanes_add_up(s, bad_names, bad, good_names, good);
}

/// Lanes are independent: the order in which two directories are processed
/// does not change the counters after both.
pub proof fn law_lane_order_does_not_matter(
    s: ExtractStats,
    names1: Seq<Vec<u8>>,
    outcomes1: Seq<ZipEntryOutcome>,
    names2: Seq<Vec<u8>>,
    outcomes2: Seq<ZipEntryOutcome>,
)
    ensures
        after_lane(after_lane(s, names1, outcomes1), names2, outcomes2) == after_lane(
            after_lane(s, names2, outcomes2),
            names1,
            outcomes1,
        ),
{
    law_lanes_add_up(s, names1, outcomes1, names2, outcomes2);
    law_lanes_add_up(s, names2, outcomes2, names1, outcomes1);
}

} // verus!

use extract_model_info_json::{
    classify_files, close_archive, name_has_extension, open_directory, ExtractStats,
    StatsAggregator, ZipEntryOutcome,
};

fn names(list: &[&str]) -> Vec<Vec<u8>> {
    list.iter().map(|n| n.as_bytes().to_vec()).collect()
}

fn stats(dirs: u64, weights: u64, zips: u64, extracted: u64) -> ExtractStats {
    ExtractStats {
        directories_scanned: dirs,
        safetensors_directories: weights,
        zip_files_checked: zips,
        extracted,
    }
}

fn consistent(s: &ExtractStats) -> bool {
    s.safetensors_directories <= s.directories_scanned && s.extracted <= s.zip_files_checked
}

#[test]
fn extension_needs_a_dot_that_is_not_first() {
    let zip = b"zip".to_vec();
    assert!(name_has_extension(&b"model.zip".to_vec(), &zip));
    assert!(name_has_extension(&b"a.tar.zip".to_vec(), &zip));
    assert!(!name_has_extension(&b".zip".to_vec(), &zip));
    assert!(!name_has_extension(&b"zip".to_vec(), &zip));
    assert!(!name_has_extension(&b"model.ZIP".to_vec(), &zip));
    assert!(!name_has_extension(&b"model.zipx".to_vec(), &zip));
    assert!(!name_has_extension(&b"modelzip".to_vec(), &zip));
}

#[test]
fn classify_lists_archives_in_order_when_marked() {
    let plan = classify_files(&names(&[
        "b.zip",
        "notes.txt",
        "model.safetensors",
        "a.zip",
        ".zip",
    ]));
    assert!(plan.has_marker);
    assert_eq!(plan.archives, vec![0, 3]);
}

#[test]
fn classify_unmarked_directory_plans_nothing() {
    let plan = classify_files(&names(&["model.zip", "model.safetensors.bak", ".safetensors"]));
    assert!(!plan.has_marker);
    assert!(plan.archives.is_empty());
}

#[test]
fn classify_empty_directory() {
    let plan = classify_files(&Vec::new());
    assert!(!plan.has_marker);
    assert!(plan.archives.is_empty());
}

#[test]
fn marked_directory_without_archives_still_counts() {
    let mut agg = StatsAggregator::new();
    let (plan, snap) = open_directory(&mut agg, &names(&["model.safetensors"]));
    assert!(plan.has_marker);
    assert!(plan.archives.is_empty());
    assert_eq!(snap, stats(1, 1, 0, 0));
}

#[test]
fn single_archive_with_entry_extracts_once() {
    let mut agg = StatsAggregator::new();
    let (plan, _) = open_directory(&mut agg, &names(&["model.safetensors", "model.zip"]));
    assert_eq!(plan.archives, vec![1]);
    let report = close_archive(&mut agg, ZipEntryOutcome::Extracted);
    assert_eq!(report.invalid_reason, None);
    assert_eq!(report.snapshot, stats(1, 1, 1, 1));
}

#[test]
fn archive_without_entry_extracts_nothing() {
    let mut agg = StatsAggregator::new();
    let _ = open_directory(&mut agg, &names(&["model.safetensors", "model.zip"]));
    let report = close_archive(&mut agg, ZipEntryOutcome::NotFound);
    assert_eq!(report.invalid_reason, None);
    assert_eq!(report.snapshot.extracted, 0);
    assert_eq!(report.snapshot.zip_files_checked, 1);
}

#[test]
fn invalid_archive_is_reported_and_run_goes_on() {
    let mut agg = StatsAggregator::new();
    let _ = open_directory(&mut agg, &names(&["model.safetensors", "broken.zip"]));
    let report = close_archive(&mut agg, ZipEntryOutcome::InvalidZip("not a zip".to_string()));
    assert_eq!(report.invalid_reason, Some("not a zip".to_string()));
    assert_eq!(report.snapshot, stats(1, 1, 1, 0));
    let (plan, _) = open_directory(&mut agg, &names(&["model.safetensors", "model.zip"]));
    assert_eq!(plan.archives.len(), 1);
    let report = close_archive(&mut agg, ZipEntryOutcome::Extracted);
    assert_eq!(report.snapshot, stats(2, 2, 2, 1));
}

#[test]
fn lanes_in_either_order_give_the_same_counters() {
    let nested = names(&["model.safetensors", "model.zip"]);
    let plain = names(&["readme.md"]);

    let mut first = StatsAggregator::new();
    let _ = open_directory(&mut first, &nested);
    let _ = close_archive(&mut first, ZipEntryOutcome::Extracted);
    let _ = open_directory(&mut first, &plain);

    let mut second = StatsAggregator::new();
    let _ = open_directory(&mut second, &plain);
    let _ = open_directory(&mut second, &nested);
    let _ = close_archive(&mut second, ZipEntryOutcome::Extracted);

    assert_eq!(first.snapshot(), second.snapshot());
    assert_eq!(first.snapshot(), stats(2, 1, 1, 1));
}

#[test]
fn every_snapshot_is_consistent() {
    let mut agg = StatsAggregator::new();
    let mut seen = vec![agg.snapshot()];
    let (_, snap) = open_directory(&mut agg, &names(&["w.safetensors", "a.zip", "b.zip"]));
    seen.push(snap);
    for outcome in [
        ZipEntryOutcome::Extracted,
        ZipEntryOutcome::InvalidZip("truncated".to_string()),
    ] {
        seen.push(close_archive(&mut agg, outcome).snapshot);
    }
    let (_, snap) = open_directory(&mut agg, &names(&["a.zip"]));
    seen.push(snap);
    assert!(seen.iter().all(consistent));
    assert_eq!(agg.snapshot(), stats(2, 1, 2, 1));
}

#[test]
fn scenario_one_marked_and_one_unmarked_model_directory() {
    let mut agg = StatsAggregator::new();
    let root = names(&[]);
    let model_a = names(&["model.safetensors", "model.zip"]);
    let model_b = names(&["model.zip"]);

    let (root_plan, _) = open_directory(&mut agg, &root);
    assert!(root_plan.archives.is_empty());

    let (plan_a, _) = open_directory(&mut agg, &model_a);
    assert_eq!(plan_a.archives, vec![1]);
    for _ in &plan_a.archives {
        let _ = close_archive(&mut agg, ZipEntryOutcome::Extracted);
    }

    let (plan_b, _) = open_directory(&mut agg, &model_b);
    assert!(!plan_b.has_marker);
    assert!(plan_b.archives.is_empty());

    let last = agg.snapshot();
    assert!(last.directories_scanned >= 2);
    assert_eq!(last.safetensors_directories, 1);
    assert_eq!(last.zip_files_checked, 1);
    assert_eq!(last.extracted, 1);
}

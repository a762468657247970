use extract_model_info_json::{ExtractStats, LineProgressReporter, NoProgressReporter};

fn stats(dirs: u64, weights: u64, zips: u64, extracted: u64) -> ExtractStats {
    ExtractStats {
        directories_scanned: dirs,
        safetensors_directories: weights,
        zip_files_checked: zips,
        extracted,
    }
}

#[test]
fn line_reporter_starts_once() {
    let mut reporter = LineProgressReporter::with_writer(Vec::<u8>::new());
    assert_eq!(reporter.start("/tmp"), Some("scanning: /tmp\n".to_string()));
    assert_eq!(reporter.start("/tmp"), None);
}

#[test]
fn line_reporter_writes_full_update_and_skips_repeats() {
    let mut reporter = LineProgressReporter::with_writer(Vec::<u8>::new());
    assert_eq!(
        reporter.update(&stats(2, 1, 1, 1)),
        Some("\rdirs: 2 safetensors: 1 zip: 1 extracted: 1".to_string())
    );
    assert_eq!(reporter.update(&stats(2, 1, 1, 1)), None);
}

#[test]
fn line_reporter_skips_zero_update_before_any() {
    let mut reporter = LineProgressReporter::with_writer(Vec::<u8>::new());
    assert_eq!(reporter.update(&stats(0, 0, 0, 0)), None);
}

#[test]
fn line_reporter_reports_invalid_zip_on_its_own_line() {
    let reporter = LineProgressReporter::with_writer(Vec::<u8>::new());
    assert_eq!(
        reporter.invalid_zip("/tmp/bad.zip", "invalid"),
        "\ninvalid zip: /tmp/bad.zip (invalid)\n"
    );
}

#[test]
fn line_reporter_finish_writes_pending_counters() {
    let mut reporter = LineProgressReporter::with_writer(Vec::<u8>::new());
    assert_eq!(
        reporter.finish(&stats(8, 0, 0, 0)),
        "\rdirs: 8 safetensors: 0 zip: 0 extracted: 0\n"
    );
    assert_eq!(reporter.finish(&stats(8, 0, 0, 0)), "\n");
}

#[test]
fn line_reporter_hands_back_its_writer() {
    let mut reporter = LineProgressReporter::with_writer(Vec::<u8>::new());
    let line = reporter.start("/tmp").unwrap();
    reporter.writer_mut().extend_from_slice(line.as_bytes());
    let written = String::from_utf8(reporter.into_inner()).unwrap();
    assert_eq!(written, "scanning: /tmp\n");
}

#[test]
fn line_reporter_start_keeps_non_ascii_root() {
    let mut reporter = LineProgressReporter::with_writer(Vec::<u8>::new());
    assert_eq!(
        reporter.start("/data/模型"),
        Some("scanning: /data/模型\n".to_string())
    );
}

#[test]
fn no_progress_reporter_builds() {
    let _reporter = NoProgressReporter::new();
}

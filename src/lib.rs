//! Finds model-weight directories under a root and decides, for each, which
//! archives to inspect for the bundled `model_info.json`, keeping run counters
//! whose invariants hold in every snapshot.

mod classify;
mod domain;
mod entry;
mod format;
mod lane;
mod report;
pub mod laws;
mod stats;

pub use crate::domain::{ExtractStats, MODEL_INFO_FILE_NAME};
pub use crate::stats::{after_archive, after_directory, sat_add, StatsAggregator};
pub use crate::classify::{
    archive_extension, archive_positions, classify_files, has_extension, is_archive, is_marker,
    listing_has_marker, marker_extension, name_has_extension, plan_of, DirectoryPlan,
};
pub use crate::lane::{
    after_archives, after_lane, close_archive, count_extracted, open_directory, ArchiveReport,
    ZipEntryOutcome,
};
pub use crate::format::{decimal, digit_chars, format_stats, full_stats_line, short_stats_line};
pub use crate::report::{
    invalid_zip_line, start_line, update_line, FsPorts, LineProgressReporter, NoProgressReporter,
};
pub use crate::entry::{entry_is_target, is_base_name};

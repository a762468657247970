use vstd::prelude::*;

verus! {

/// Name of the metadata file sought inside archives.
pub const MODEL_INFO_FILE_NAME: &'static str = "model_info.json";

/// A point-in-time copy of the run counters.
#[derive(Debug, Clone, Copy, PartialEq, Eq, Structural)]
pub struct ExtractStats {
    pub directories_scanned: u64,
    pub safetensors_directories: u64,
    pub zip_files_checked: u64,
    pub extracted: u64,
}

impl ExtractStats {
    /// All four counters at zero.
    pub open spec fn zero_spec() -> ExtractStats {
        ExtractStats {
            directories_scanned: 0,
            safetensors_directories: 0,
            zip_files_checked: 0,
            extracted: 0,
        }
    }

    /// The counters' invariant: no more weight directories than scanned
    /// directories, and no more extractions than archives checked.
    pub open spec fn is_consistent(self) -> bool {
        &&& self.safetensors_directories <= self.directories_scanned
        &&& self.extracted <= self.zip_files_checked
    }

    /// All four counters at zero.
    pub fn zero() -> (r: ExtractStats)
        ensures
            r == ExtractStats::zero_spec(),
            r.is_consistent(),
    {
        ExtractStats {
            directories_scanned: 0,
            safetensors_directories: 0,
            zip_files_checked: 0,
            extracted: 0,
        }
    }
}

impl Default for ExtractStats {
    fn default() -> (r: ExtractStats)
        ensures
            r == ExtractStats::zero_spec(),
    {
        ExtractStats::zero()
    }
}

} // verus!

//! The settings of a run.

use vstd::prelude::*;
use vstd::string::*;
use crate::summary::{clamp_percent, clamped_percent};

verus! {

/// The settings of a run, as the configuration file gives them.
#[derive(Clone, Debug)]
pub struct Config {
    pub files_directory: String,
    pub compress_summary: u8,
    pub ocr_model: String,
    pub summary_model: String,
    /// Output file path for the generated summary (defaults to "summary.md").
    pub output_path: String,
    /// Log file path (defaults to "app.log"). Set to empty string to disable file logging.
    pub log_file: String,
}

/// Where the summary is written unless the configuration says otherwise.
pub fn default_output_path() -> (path: String)
    ensures
        path@ == "summary.md"@,
{
    String::from_str("summary.md")
}

/// Where the log is kept unless the configuration says otherwise.
pub fn default_log_file() -> (path: String)
    ensures
        path@ == "app.log"@,
{
    String::from_str("app.log")
}

impl Config {
    /// Returns `compress_summary` clamped to [1, 100].
    pub fn compress_percent(&self) -> (percent: u8)
        ensures
            percent == clamped_percent(self.compress_summary as int),
            1 <= percent <= 100,
    {
        clamp_percent(self.compress_summary)
    }
}

} // verus!

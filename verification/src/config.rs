//! The command-line scanner's configuration.
use vstd::prelude::*;
use crate::paths::{non_overlapping_directories, non_overlapping_prefix};

verus! {

/// The scanner's settings: where to look, what to ignore, which spinner to
/// show.
#[derive(Debug, Clone)]
pub struct AppConfig {
    pub root_paths: Vec<String>,
    pub ignore_patterns: Vec<String>,
    pub spinner_key: Option<String>,
}

impl AppConfig {
    /// The configuration with its roots reduced by
    /// `non_overlapping_directories`; the other settings stay.
    pub fn sanitize_config(config: AppConfig) -> (r: AppConfig)
        ensures
            r.root_paths@.map_values(|s: String| s@) == non_overlapping_prefix(
                config.root_paths@.map_values(|s: String| s@),
                config.root_paths@.len() as int,
            ),
            r.ignore_patterns == config.ignore_patterns,
            r.spinner_key == config.spinner_key,
    {
        let AppConfig { root_paths, ignore_patterns, spinner_key } = config;
        AppConfig { root_paths: non_overlapping_directories(root_paths), ignore_patterns, spinner_key }
    }
}

} // verus!

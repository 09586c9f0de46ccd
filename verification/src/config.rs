//! Application configuration.

use vstd::prelude::*;
use crate::text::owned;

verus! {

/// Where the application keeps its data, how much it logs, and how long
/// translations stay cached. Paths are held as text.
#[derive(Debug, Clone)]
pub struct AppConfig {
    pub db_path: String,
    pub cloak_dir: String,
    pub log_level: String,
    pub translation_cache_ttl_secs: u64,
}

impl AppConfig {
    /// The configuration with the database at `db_path` and the browser in
    /// `cloak_dir`: logging at "info", translations cached for a day.
    pub fn with_paths(db_path: String, cloak_dir: String) -> (r: AppConfig)
        ensures
            r.db_path == db_path,
            r.cloak_dir == cloak_dir,
            r.log_level@ == "info"@,
            r.translation_cache_ttl_secs == 86400,
    {
        AppConfig { db_path, cloak_dir, log_level: owned("info"), translation_cache_ttl_secs: 86400 }
    }
}

} // verus!

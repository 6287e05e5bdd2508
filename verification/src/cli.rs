//! The options of one run.

use vstd::prelude::*;

verus! {

/// What the command line of a run holds, as plain values.
#[derive(Debug, Clone)]
pub struct Cli {
    /// Path of the database to write.
    pub sqlite_outfile: String,
    /// Directory of the compressed files that hold comments.
    pub comments: Option<String>,
    /// Directory of the compressed files that hold submissions.
    pub submissions: Option<String>,
    /// File that holds a filter configuration.
    pub filter_config: Option<String>,
    /// Authors to admit.
    pub username: Option<Vec<String>>,
    /// Subreddits to admit.
    pub subreddit: Option<Vec<String>>,
    /// Lowest score to admit, as it was typed.
    pub min_score: Option<String>,
    /// Highest score to admit.
    pub max_score: Option<i64>,
    /// Earliest creation time to admit, as it was typed.
    pub min_datetime: Option<String>,
    /// Latest creation time to admit, as it was typed.
    pub max_datetime: Option<String>,
    /// Trade durability for speed.
    pub unsafe_mode: bool,
    /// Keep a full-text index beside the tables.
    pub enable_fts: bool,
}

} // verus!

//! Finds directories and files that can safely be deleted from a developer's
//! workstation: build outputs, dependency caches and similar scratch areas.
//!
//! The crate is the scan engine and what is built on it:
//!
//! - [`Scanner`] runs an ordered list of heuristics over the listing of one
//!   directory, sums what they say about each entry and decides which
//!   entries are matches, which subdirectories are not worth entering and
//!   which are to be treated as dangerous. [`tree`] walks a directory tree
//!   held in memory with it; the walk of a real file system lists each
//!   directory and does the same. [`route`] and [`rescan`] state what holds
//!   of a whole walk.
//! - [`heuristics`] holds the rules that come with the crate, [`heuristic`]
//!   says what a rule is, and [`matching_state`] is what a rule sees of a
//!   directory.
//! - [`dir_stats`] sums sizes and ages of what lies under a path, and
//!   [`pool`] shares such work out among threads.
//! - [`ui`] is the state behind an interactive interface on the matches.
pub mod args;
pub mod cache;
pub mod color;
pub mod dir_stats;
pub mod entry;
pub mod gitignore;
pub mod heuristic;
pub mod heuristics;
pub mod lang;
pub mod log;
pub mod match_data;
pub mod matching_state;
pub mod pattern;
pub mod pool;
pub mod rescan;
pub mod route;
pub mod scanner;
pub mod seen;
pub mod text;
pub mod tree;
pub mod ui;
pub mod views;

pub use color::IconColor;
pub use dir_stats::DirStats;
pub use heuristic::Heuristic;
pub use heuristics::all_heuristics;
pub use lang::CommentedLang;
pub use lang::Lang;
pub use match_data::MatchData;
pub use match_data::MatchParameters;
pub use matching_state::MatchingState;
pub use scanner::Scanner;

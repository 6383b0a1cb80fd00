//! Line-oriented pattern search: which lines of which inputs match a
//! regular expression, and how each result is written.
//!
//! The library decides; it neither reads nor writes. A caller looks the
//! requested paths up and hands the findings to [`find_files`], reads each
//! resolved input and hands what became of it to [`run`], and writes the
//! emissions that come back.

pub mod config;
pub mod error;
pub mod highlight;
pub mod pattern;
pub mod resolver;
pub mod runner;
pub mod scanner;
pub mod text;

pub use config::get_args;
pub use config::Args;
pub use config::Config;
pub use error::SearchError;
pub use highlight::highlight;
pub use highlight::locate_first_match;
pub use highlight::split_line;
pub use highlight::Highlighted;
pub use highlight::MatchSpan;
pub use pattern::Pattern;
pub use resolver::count_resolved;
pub use resolver::find_files;
pub use resolver::EntryKind;
pub use resolver::PathOutcome;
pub use resolver::PathProbe;
pub use resolver::Request;
pub use resolver::WalkEntry;
pub use runner::count_searched;
pub use runner::report;
pub use runner::run;
pub use runner::Emission;
pub use runner::Visit;
pub use scanner::find_lines;
pub use scanner::is_selected;
pub use text::decimal_string;
pub use text::is_stdin;

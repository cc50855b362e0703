//! Measures the time that elapsed between two marker lines of a trace log.
//!
//! A scan goes through the lines of a file, looks for a line that matches the
//! from-pattern and then for one that matches the to-pattern, takes the
//! timestamp of each and reports the time from the one to the other. A pattern
//! is a literal text or a regular expression, and of each marker either the
//! first or the last matching line counts.
//!
//! - `scan` holds the state of a scan and what a line does to it;
//! - `plain` and `regex_mode` find out what a line shows, each in its way;
//! - `measure` is the scan of a whole file;
//! - `laws` states what holds of every scan;
//! - `timestamp`, `pattern` and `text` read timestamps and match patterns;
//! - `report` writes the duration out, `files` checks the path of the file,
//!   and `error` names the ways in which a measurement fails.

pub mod error;
pub mod files;
pub mod laws;
pub mod measure;
pub mod pattern;
pub mod plain;
pub mod regex_mode;
pub mod report;
pub mod scan;
pub mod text;
pub mod timestamp;

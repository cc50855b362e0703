//! The measurement as a whole: the lines of a file, two markers and the way
//! of matching in; a duration or a failure out.

use crate::error::{viewed, ScanError, ScanFailure};
use crate::plain::{plain_sightings, run};
use crate::regex_mode::{regex_outcome, run_regex};
use crate::scan::{final_state, MatchSpec};
use crate::timestamp::Duration;
use vstd::prelude::*;

verus! {

/// What a scan of `lines` comes to. With `use_regex` the patterns are regular
/// expressions, which are compiled before any line counts; else they are
/// literal texts.
pub open spec fn measured(lines: Seq<String>, from: MatchSpec, to: MatchSpec, use_regex: bool) -> Result<
    Duration,
    ScanFailure,
> {
    if use_regex {
        regex_outcome(lines, from.pattern@, to.pattern@, from.last, to.last)
    } else {
        final_state(
            plain_sightings(lines, from.pattern@, to.pattern@),
            from.last,
            to.last,
        ).outcome(from.pattern@, to.pattern@)
    }
}

/// Scans `lines` for the two markers and reports the time from the one to
/// the other. The lines are taken as the reader hands them over, with their
/// line ends if it keeps them.
pub fn scan(lines: &Vec<String>, from: &MatchSpec, to: &MatchSpec, use_regex: bool) -> (r: Result<
    Duration,
    ScanError,
>)
    ensures
        viewed(r) == measured(lines@, *from, *to, use_regex),
{
    if use_regex {
        run_regex(lines, from.pattern.as_str(), to.pattern.as_str(), from.last, to.last)
    } else {
        run(lines, from.pattern.as_str(), to.pattern.as_str(), from.last, to.last)
    }
}

} // verus!

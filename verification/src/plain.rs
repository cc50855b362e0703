//! Scanning with literal patterns: a line matches a pattern that is a
//! substring of it, and its timestamp is the text in front of its first `>`.

use crate::error::{viewed, ScanError};
use crate::scan::{final_state, scan_from, MatchSpec, Progress, ScanState, Sighting};
use crate::text::{contains, field_before, occurs, split_before};
use crate::timestamp::{parse_datetime, timestamp_of, Duration, Timestamp};
use vstd::prelude::*;
use vstd::string::StringExecFns;

verus! {

/// The timestamp of a line: what the text in front of its first `>` spells.
/// A line without a `>`, or with another text in front of it, has none.
pub open spec fn plain_stamp(line: Seq<char>) -> Option<Timestamp> {
    match field_before(line, '>') {
        Some(field) => timestamp_of(field),
        None => None,
    }
}

/// What a line shows to a scan with literal patterns.
pub open spec fn plain_sighting(line: Seq<char>, from: Seq<char>, to: Seq<char>) -> Sighting {
    Sighting { from_hit: occurs(line, from), to_hit: occurs(line, to), stamp: plain_stamp(line) }
}

/// What the lines of a file show, line by line.
pub open spec fn plain_sightings(lines: Seq<String>, from: Seq<char>, to: Seq<char>) -> Seq<
    Sighting,
> {
    Seq::new(lines.len(), |k: int| plain_sighting(lines[k]@, from, to))
}

/// Reads the timestamp in front of the first `>` of `line`.
pub fn read_plain_stamp(line: &str) -> (stamp: Option<Timestamp>)
    ensures
        stamp == plain_stamp(line@),
{
    match split_before(line, '>') {
        Some(field) => match parse_datetime(field) {
            Ok(t) => Some(t),
            Err(_) => None,
        },
        None => None,
    }
}

/// Takes one line into account and says what it did to the scan. A pattern
/// is only searched for where its match would count.
pub fn scan_line(state: &mut ScanState, line: &str, from: &MatchSpec, to: &MatchSpec) -> (done:
    Progress)
    ensures
        *final(state) == old(state).after(
            plain_sighting(line@, from.pattern@, to.pattern@),
            from.last,
        ),
        done == old(state).progress(
            plain_sighting(line@, from.pattern@, to.pattern@),
            from.last,
            to.last,
        ),
        old(state).wf() ==> final(state).wf(),
{
    let from_matched = state.tries_from(from.last) && contains(line, from.pattern.as_str());
    if from_matched {
        state.mark_from(read_plain_stamp(line));
    }
    let to_matched = state.tries_to() && contains(line, to.pattern.as_str());
    if to_matched {
        state.mark_to(read_plain_stamp(line));
    }
    Progress { from_matched, to_matched, stop: to_matched && !to.last }
}

/// Measures the time between the line that holds `pattern1` and the line that
/// holds `pattern2`. With `p1_replace` the last line that holds `pattern1`
/// counts, else the first one; `p2_replace` says the same of `pattern2`.
pub fn run(
    lines: &Vec<String>,
    pattern1: &str,
    pattern2: &str,
    p1_replace: bool,
    p2_replace: bool,
) -> (r: Result<Duration, ScanError>)
    ensures
        viewed(r) == final_state(
            plain_sightings(lines@, pattern1@, pattern2@),
            p1_replace,
            p2_replace,
        ).outcome(pattern1@, pattern2@),
{
    let from = MatchSpec { pattern: String::from_str(pattern1), last: p1_replace };
    let to = MatchSpec { pattern: String::from_str(pattern2), last: p2_replace };
    let ghost sightings = plain_sightings(lines@, pattern1@, pattern2@);
    let mut state = ScanState::new();
    let mut next: usize = 0;
    let mut stopped = false;
    while next < lines.len() && !stopped
        invariant
            next <= lines.len(),
            from.pattern@ == pattern1@,
            to.pattern@ == pattern2@,
            from.last == p1_replace,
            to.last == p2_replace,
            sightings == plain_sightings(lines@, pattern1@, pattern2@),
            stopped ==> state == final_state(sightings, p1_replace, p2_replace),
            !stopped ==> scan_from(state, sightings, next as int, p1_replace, p2_replace) == final_state(
                sightings,
                p1_replace,
                p2_replace,
            ),
        decreases lines.len() - next,
    {
        stopped = scan_line(&mut state, lines[next].as_str(), &from, &to).stop;
        next += 1;
    }
    state.finish(pattern1, pattern2)
}

} // verus!

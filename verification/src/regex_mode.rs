//! Scanning with regular expressions: a line matches a pattern that matches
//! anywhere in it, and its timestamp is the first date-time found in it.

use crate::error::{viewed, ScanError, ScanFailure};
use crate::pattern::{
    compile, invalid_pattern, regex_find, regex_first_match, regex_is_match, regex_matches,
    regex_source,
};
use crate::scan::{final_state, scan_from, MatchSpec, Progress, ScanState, Sighting};
use crate::timestamp::{parse_datetime, timestamp_of, Duration, Timestamp};
use regex::Regex;
use vstd::prelude::*;
use vstd::string::StringExecFns;

verus! {

/// The expression that finds a date-time in a line: four digits, two and two
/// with `-` between them, a space, and two digits three times with `:`
/// between them.
pub open spec fn stamp_pattern() -> Seq<char> {
    "\\d{4}-\\d{2}-\\d{2} \\d{2}:\\d{2}:\\d{2}"@
}

/// The timestamp of a line: what the first date-time found in it spells.
pub open spec fn regex_stamp(line: Seq<char>) -> Option<Timestamp> {
    match regex_first_match(stamp_pattern(), line) {
        Some(text) => timestamp_of(text),
        None => None,
    }
}

/// What a line shows to a scan with regular expressions.
pub open spec fn regex_sighting(line: Seq<char>, from: Seq<char>, to: Seq<char>) -> Sighting {
    Sighting {
        from_hit: regex_matches(from, line),
        to_hit: regex_matches(to, line),
        stamp: regex_stamp(line),
    }
}

/// What the lines of a file show, line by line.
pub open spec fn regex_sightings(lines: Seq<String>, from: Seq<char>, to: Seq<char>) -> Seq<
    Sighting,
> {
    Seq::new(lines.len(), |k: int| regex_sighting(lines[k]@, from, to))
}

/// The failure with which the expressions of a scan are refused, if one of
/// them is: the date-time expression is compiled first, then the
/// from-pattern, then the to-pattern, and the first failure is reported.
pub open spec fn plan_failure(from: Seq<char>, to: Seq<char>) -> Option<ScanFailure> {
    if invalid_pattern(stamp_pattern()) is Some {
        invalid_pattern(stamp_pattern())
    } else if invalid_pattern(from) is Some {
        invalid_pattern(from)
    } else {
        invalid_pattern(to)
    }
}

/// The two markers of a scan with their compiled expressions, and the
/// expression that finds a date-time in a line.
pub struct RegexPlan {
    from: MatchSpec,
    to: MatchSpec,
    from_regex: Regex,
    to_regex: Regex,
    stamp_regex: Regex,
}

impl RegexPlan {
    /// Each expression was compiled from the pattern it stands for.
    #[verifier::type_invariant]
    spec fn compiled(self) -> bool {
        &&& regex_source(self.from_regex) == Some(self.from.pattern@)
        &&& regex_source(self.to_regex) == Some(self.to.pattern@)
        &&& regex_source(self.stamp_regex) == Some(stamp_pattern())
    }

    /// The pattern of the from-marker.
    pub closed spec fn from_pattern(self) -> Seq<char> {
        self.from.pattern@
    }

    /// The pattern of the to-marker.
    pub closed spec fn to_pattern(self) -> Seq<char> {
        self.to.pattern@
    }

    /// Whether the last match of the from-pattern counts.
    pub closed spec fn from_last(self) -> bool {
        self.from.last
    }

    /// Whether the last match of the to-pattern counts.
    pub closed spec fn to_last(self) -> bool {
        self.to.last
    }

    /// What a line shows under this plan.
    pub open spec fn sighting(self, line: Seq<char>) -> Sighting {
        regex_sighting(line, self.from_pattern(), self.to_pattern())
    }

    /// Compiles the expressions of a scan, before any line is read.
    pub fn compile(from: &MatchSpec, to: &MatchSpec) -> (r: Result<RegexPlan, ScanError>)
        ensures
            match r {
                Ok(plan) => {
                    &&& plan_failure(from.pattern@, to.pattern@) is None
                    &&& plan.from_pattern() == from.pattern@
                    &&& plan.to_pattern() == to.pattern@
                    &&& plan.from_last() == from.last
                    &&& plan.to_last() == to.last
                },
                Err(e) => plan_failure(from.pattern@, to.pattern@) == Some(e@),
            },
    {
        let stamp_regex = match compile("\\d{4}-\\d{2}-\\d{2} \\d{2}:\\d{2}:\\d{2}") {
            Ok(re) => re,
            Err(e) => {
                return Err(e);
            },
        };
        let from_regex = match compile(from.pattern.as_str()) {
            Ok(re) => re,
            Err(e) => {
                return Err(e);
            },
        };
        let to_regex = match compile(to.pattern.as_str()) {
            Ok(re) => re,
            Err(e) => {
                return Err(e);
            },
        };
        Ok(
            RegexPlan {
                from: MatchSpec { pattern: from.pattern.clone(), last: from.last },
                to: MatchSpec { pattern: to.pattern.clone(), last: to.last },
                from_regex,
                to_regex,
                stamp_regex,
            },
        )
    }

    /// Reads the first date-time found in `line`.
    pub fn read_stamp(&self, line: &str) -> (stamp: Option<Timestamp>)
        ensures
            stamp == regex_stamp(line@),
    {
        proof {
            use_type_invariant(self);
        }
        match regex_find(&self.stamp_regex, line) {
            Some(text) => match parse_datetime(text.as_str()) {
                Ok(t) => Some(t),
                Err(_) => None,
            },
            None => None,
        }
    }

    /// Takes one line into account and says what it did to the scan. A
    /// pattern is only tried where its match would count.
    pub fn scan_line(&self, state: &mut ScanState, line: &str) -> (done: Progress)
        ensures
            *final(state) == old(state).after(self.sighting(line@), self.from_last()),
            done == old(state).progress(self.sighting(line@), self.from_last(), self.to_last()),
            old(state).wf() ==> final(state).wf(),
    {
        proof {
            use_type_invariant(self);
        }
        let from_matched = state.tries_from(self.from.last) && regex_is_match(
            &self.from_regex,
            line,
        );
        if from_matched {
            state.mark_from(self.read_stamp(line));
        }
        let to_matched = state.tries_to() && regex_is_match(&self.to_regex, line);
        if to_matched {
            state.mark_to(self.read_stamp(line));
        }
        Progress { from_matched, to_matched, stop: to_matched && !self.to.last }
    }

    /// The duration that the scan measured, or why it measured none.
    pub fn finish(&self, state: &ScanState) -> (r: Result<Duration, ScanError>)
        ensures
            viewed(r) == state.outcome(self.from_pattern(), self.to_pattern()),
    {
        state.finish(self.from.pattern.as_str(), self.to.pattern.as_str())
    }
}

/// What `run_regex` returns: the failure of the first expression that does
/// not compile, whatever the lines hold, and else what the scan comes to.
pub open spec fn regex_outcome(
    lines: Seq<String>,
    from: Seq<char>,
    to: Seq<char>,
    from_last: bool,
    to_last: bool,
) -> Result<Duration, ScanFailure> {
    match plan_failure(from, to) {
        Some(failure) => Err(failure),
        None => final_state(regex_sightings(lines, from, to), from_last, to_last).outcome(from, to),
    }
}

/// Measures the time between the line that matches the expression `pattern1`
/// and the line that matches `pattern2`. With `p1_replace` the last line that
/// matches `pattern1` counts, else the first one; `p2_replace` says the same
/// of `pattern2`.
pub fn run_regex(
    lines: &Vec<String>,
    pattern1: &str,
    pattern2: &str,
    p1_replace: bool,
    p2_replace: bool,
) -> (r: Result<Duration, ScanError>)
    ensures
        viewed(r) == regex_outcome(lines@, pattern1@, pattern2@, p1_replace, p2_replace),
{
    let from = MatchSpec { pattern: String::from_str(pattern1), last: p1_replace };
    let to = MatchSpec { pattern: String::from_str(pattern2), last: p2_replace };
    let plan = match RegexPlan::compile(&from, &to) {
        Ok(plan) => plan,
        Err(e) => {
            return Err(e);
        },
    };
    let ghost sightings = regex_sightings(lines@, pattern1@, pattern2@);
    let mut state = ScanState::new();
    let mut next: usize = 0;
    let mut stopped = false;
    while next < lines.len() && !stopped
        invariant
            next <= lines.len(),
            plan.from_pattern() == pattern1@,
            plan.to_pattern() == pattern2@,
            plan.from_last() == p1_replace,
            plan.to_last() == p2_replace,
            sightings == regex_sightings(lines@, pattern1@, pattern2@),
            stopped ==> state == final_state(sightings, p1_replace, p2_replace),
            !stopped ==> scan_from(state, sightings, next as int, p1_replace, p2_replace) == final_state(
                sightings,
                p1_replace,
                p2_replace,
            ),
        decreases lines.len() - next,
    {
        stopped = plan.scan_line(&mut state, lines[next].as_str()).stop;
        next += 1;
    }
    plan.finish(&state)
}

} // verus!

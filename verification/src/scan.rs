//! The scan itself: what each line does to the state of a measurement, when
//! the scan stops, and what the final state amounts to.

use crate::error::{viewed, ScanError, ScanFailure, Side};
use crate::timestamp::{between, difference, Duration, Timestamp};
use vstd::prelude::*;
use vstd::string::StringExecFns;

verus! {

/// A marker to look for: a pattern, and whether the last line that matches it
/// counts (`last`) or the first one.
#[derive(Clone, Debug, PartialEq, Eq)]
pub struct MatchSpec {
    pub pattern: String,
    pub last: bool,
}

/// What one line shows: whether it matches the from-pattern, whether it
/// matches the to-pattern, and the timestamp it carries, if it carries one.
#[derive(Clone, Copy, Debug, PartialEq, Eq)]
pub struct Sighting {
    pub from_hit: bool,
    pub to_hit: bool,
    pub stamp: Option<Timestamp>,
}

/// What a line did to a scan: whether it counted as the from-marker, whether
/// it counted as the to-marker, and whether the scan stops after it.
#[derive(Clone, Copy, Debug, PartialEq, Eq)]
pub struct Progress {
    pub from_matched: bool,
    pub to_matched: bool,
    pub stop: bool,
}

/// The state of a measurement while the lines go by.
#[derive(Clone, Copy, Debug, PartialEq, Eq)]
pub struct ScanState {
    pub from_found: bool,
    pub to_found: bool,
    pub from_timestamp: Option<Timestamp>,
    pub to_timestamp: Option<Timestamp>,
}

/// What choosing a marker from the two ways of giving it comes to: exactly one
/// of the first-match and the last-match pattern must be there.
pub open spec fn selection(first: Option<String>, last: Option<String>, side: Side) -> Result<
    (Seq<char>, bool),
    ScanFailure,
> {
    match (first, last) {
        (Some(pattern), None) => Ok((pattern@, false)),
        (None, Some(pattern)) => Ok((pattern@, true)),
        (Some(_), Some(_)) => Err(ScanFailure::ConflictingModes { side }),
        (None, None) => Err(ScanFailure::MissingPattern { side }),
    }
}

impl MatchSpec {
    /// Chooses the marker of one side from a first-match and a last-match
    /// pattern, of which exactly one must be given.
    pub fn select(first: Option<String>, last: Option<String>, side: Side) -> (r: Result<
        MatchSpec,
        ScanError,
    >)
        ensures
            match r {
                Ok(spec) => selection(first, last, side) == Ok::<(Seq<char>, bool), ScanFailure>(
                    (spec.pattern@, spec.last),
                ),
                Err(e) => selection(first, last, side) == Err::<(Seq<char>, bool), ScanFailure>(e@),
            },
    {
        match (first, last) {
            (Some(pattern), None) => Ok(MatchSpec { pattern, last: false }),
            (None, Some(pattern)) => Ok(MatchSpec { pattern, last: true }),
            (Some(_), Some(_)) => Err(ScanError::ConflictingModes { side }),
            (None, None) => Err(ScanError::MissingPattern { side }),
        }
    }
}

impl ScanState {
    /// The state before the first line.
    pub open spec fn start() -> ScanState {
        ScanState { from_found: false, to_found: false, from_timestamp: None, to_timestamp: None }
    }

    /// Nothing is known of a marker that was not found, and the to-marker is
    /// only looked for once the from-marker was found.
    pub open spec fn wf(self) -> bool {
        &&& self.to_found ==> self.from_found
        &&& self.from_timestamp is Some ==> self.from_found
        &&& self.to_timestamp is Some ==> self.to_found
    }

    /// The from-pattern is still tried: it was not found yet, or its last
    /// match counts.
    pub open spec fn wants_from(self, from_last: bool) -> bool {
        !self.from_found || from_last
    }

    /// The state once a line counted as the from-marker: a line without a
    /// timestamp leaves the stored one as it was.
    pub open spec fn with_from(self, stamp: Option<Timestamp>) -> ScanState {
        ScanState {
            from_found: true,
            from_timestamp: if stamp is Some { stamp } else { self.from_timestamp },
            ..self
        }
    }

    /// The state once a line counted as the to-marker.
    pub open spec fn with_to(self, stamp: Option<Timestamp>) -> ScanState {
        ScanState {
            to_found: true,
            to_timestamp: if stamp is Some { stamp } else { self.to_timestamp },
            ..self
        }
    }

    /// The state after the from-pattern had its turn at a line.
    pub open spec fn after_from(self, sighting: Sighting, from_last: bool) -> ScanState {
        if self.wants_from(from_last) && sighting.from_hit {
            self.with_from(sighting.stamp)
        } else {
            self
        }
    }

    /// The line counts as the to-marker: the from-marker was found, on this
    /// line or an earlier one, and the line matches the to-pattern.
    pub open spec fn takes_to(self, sighting: Sighting, from_last: bool) -> bool {
        self.after_from(sighting, from_last).from_found && sighting.to_hit
    }

    /// The state after a line: the from-pattern has its turn first, then the
    /// to-pattern.
    pub open spec fn after(self, sighting: Sighting, from_last: bool) -> ScanState {
        if self.takes_to(sighting, from_last) {
            self.after_from(sighting, from_last).with_to(sighting.stamp)
        } else {
            self.after_from(sighting, from_last)
        }
    }

    /// The scan stops after this line: it counts as the to-marker, and the
    /// first such line is the one wanted.
    pub open spec fn halts(self, sighting: Sighting, from_last: bool, to_last: bool) -> bool {
        self.takes_to(sighting, from_last) && !to_last
    }

    /// What a line does to the scan, beside the change of its state.
    pub open spec fn progress(self, sighting: Sighting, from_last: bool, to_last: bool) -> Progress {
        Progress {
            from_matched: self.wants_from(from_last) && sighting.from_hit,
            to_matched: self.takes_to(sighting, from_last),
            stop: self.halts(sighting, from_last, to_last),
        }
    }

    /// The two timestamps to subtract, or the reason why there are none: a
    /// marker that was never found is reported first, the from-marker before
    /// the to-marker; then a marker that was found without a timestamp.
    pub open spec fn verdict(self, from_pattern: Seq<char>, to_pattern: Seq<char>) -> Result<
        (Timestamp, Timestamp),
        ScanFailure,
    > {
        if !self.from_found {
            Err(ScanFailure::NotFound { pattern: from_pattern })
        } else if !self.to_found {
            Err(ScanFailure::NotFound { pattern: to_pattern })
        } else {
            match (self.from_timestamp, self.to_timestamp) {
                (Some(from), Some(to)) => Ok((from, to)),
                _ => Err(ScanFailure::MissingTimestamp),
            }
        }
    }

    /// What the state amounts to at the end of a scan.
    pub open spec fn outcome(self, from_pattern: Seq<char>, to_pattern: Seq<char>) -> Result<
        Duration,
        ScanFailure,
    > {
        match self.verdict(from_pattern, to_pattern) {
            Ok((from, to)) => difference(from, to),
            Err(failure) => Err(failure),
        }
    }

    /// The state before the first line.
    pub fn new() -> (state: ScanState)
        ensures
            state == ScanState::start(),
            state.wf(),
    {
        ScanState { from_found: false, to_found: false, from_timestamp: None, to_timestamp: None }
    }

    /// Whether the from-pattern is to be tried on the next line.
    pub fn tries_from(&self, from_last: bool) -> (wanted: bool)
        ensures
            wanted == self.wants_from(from_last),
    {
        !self.from_found || from_last
    }

    /// Whether the to-pattern is to be tried on the line at hand.
    pub fn tries_to(&self) -> (wanted: bool)
        ensures
            wanted == self.from_found,
    {
        self.from_found
    }

    /// Records a line that counts as the from-marker.
    pub fn mark_from(&mut self, stamp: Option<Timestamp>)
        ensures
            *final(self) == old(self).with_from(stamp),
    {
        self.from_found = true;
        if stamp.is_some() {
            self.from_timestamp = stamp;
        }
    }

    /// Records a line that counts as the to-marker.
    pub fn mark_to(&mut self, stamp: Option<Timestamp>)
        ensures
            *final(self) == old(self).with_to(stamp),
    {
        self.to_found = true;
        if stamp.is_some() {
            self.to_timestamp = stamp;
        }
    }

    /// Takes one line into account and says what it did to the scan.
    pub fn advance(&mut self, sighting: &Sighting, from_last: bool, to_last: bool) -> (done:
        Progress)
        ensures
            *final(self) == old(self).after(*sighting, from_last),
            done == old(self).progress(*sighting, from_last, to_last),
            old(self).wf() ==> final(self).wf(),
    {
        let from_matched = self.tries_from(from_last) && sighting.from_hit;
        if from_matched {
            self.mark_from(sighting.stamp);
        }
        let to_matched = self.tries_to() && sighting.to_hit;
        if to_matched {
            self.mark_to(sighting.stamp);
        }
        Progress { from_matched, to_matched, stop: to_matched && !to_last }
    }

    /// The two timestamps to subtract at the end of a scan.
    pub fn settle(&self, from_pattern: &str, to_pattern: &str) -> (r: Result<
        (Timestamp, Timestamp),
        ScanError,
    >)
        ensures
            viewed(r) == self.verdict(from_pattern@, to_pattern@),
    {
        if !self.from_found {
            return Err(ScanError::NotFound { pattern: String::from_str(from_pattern) });
        }
        if !self.to_found {
            return Err(ScanError::NotFound { pattern: String::from_str(to_pattern) });
        }
        match (self.from_timestamp, self.to_timestamp) {
            (Some(from), Some(to)) => Ok((from, to)),
            _ => Err(ScanError::MissingTimestamp),
        }
    }

    /// The duration that the scan measured, or why it measured none.
    pub fn finish(&self, from_pattern: &str, to_pattern: &str) -> (r: Result<Duration, ScanError>)
        ensures
            viewed(r) == self.outcome(from_pattern@, to_pattern@),
    {
        match self.settle(from_pattern, to_pattern) {
            Ok((from, to)) => between(&from, &to),
            Err(e) => Err(e),
        }
    }
}

/// The state in which a scan ends that is in `state` before the line at
/// position `next`: it goes on line by line until a line halts it or no line
/// is left.
pub open spec fn scan_from(
    state: ScanState,
    sightings: Seq<Sighting>,
    next: int,
    from_last: bool,
    to_last: bool,
) -> ScanState
    decreases sightings.len() - next,
{
    if next < 0 || next >= sightings.len() {
        state
    } else if state.halts(sightings[next], from_last, to_last) {
        state.after(sightings[next], from_last)
    } else {
        scan_from(state.after(sightings[next], from_last), sightings, next + 1, from_last, to_last)
    }
}

/// The state in which the scan of a whole file ends.
pub open spec fn final_state(sightings: Seq<Sighting>, from_last: bool, to_last: bool) -> ScanState {
    scan_from(ScanState::start(), sightings, 0, from_last, to_last)
}

/// Scans lines of which it is known what each shows.
pub fn replay(sightings: &Vec<Sighting>, from_last: bool, to_last: bool) -> (state: ScanState)
    ensures
        state == final_state(sightings@, from_last, to_last),
        state.wf(),
{
    let mut state = ScanState::new();
    let mut next: usize = 0;
    let mut stopped = false;
    while next < sightings.len() && !stopped
        invariant
            next <= sightings.len(),
            state.wf(),
            stopped ==> state == final_state(sightings@, from_last, to_last),
            !stopped ==> scan_from(state, sightings@, next as int, from_last, to_last) == final_state(
                sightings@,
                from_last,
                to_last,
            ),
        decreases sightings.len() - next,
    {
        stopped = state.advance(&sightings[next], from_last, to_last).stop;
        next += 1;
    }
    state
}

} // verus!

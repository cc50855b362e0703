//! What holds of every scan: which line each marker is taken from, when the
//! scan stops, and which failure is reported.

use crate::error::ScanFailure;
use crate::scan::{final_state, scan_from, ScanState, Sighting};
use crate::timestamp::difference;
use vstd::prelude::*;

verus! {

/// The state after the first `n` lines of a scan that no line has stopped.
pub open spec fn state_after(sightings: Seq<Sighting>, n: int, from_last: bool) -> ScanState
    decreases n,
{
    if n <= 0 {
        ScanState::start()
    } else {
        state_after(sightings, n - 1, from_last).after(sightings[n - 1], from_last)
    }
}

/// The scan stops after line `k`, if it gets there.
pub open spec fn halts_at(sightings: Seq<Sighting>, k: int, from_last: bool, to_last: bool) -> bool {
    state_after(sightings, k, from_last).halts(sightings[k], from_last, to_last)
}

/// Line `first` is the first one that matches the from-pattern.
pub open spec fn first_from_hit(sightings: Seq<Sighting>, first: int) -> bool {
    &&& 0 <= first < sightings.len()
    &&& sightings[first].from_hit
    &&& forall|k: int| 0 <= k < first ==> !sightings[k].from_hit
}

/// The line matches the from-pattern and carries a timestamp.
pub open spec fn stamped_from(sighting: Sighting) -> bool {
    sighting.from_hit && sighting.stamp is Some
}

/// The line matches the to-pattern and carries a timestamp.
pub open spec fn stamped_to(sighting: Sighting) -> bool {
    sighting.to_hit && sighting.stamp is Some
}

/// The scan reads the first `end` lines and no more, given that line `first`
/// is the first one that matches the from-pattern: where the last match of
/// the to-pattern counts it reads all lines; else it reads up to the first
/// line from `first` on that matches the to-pattern, and all lines if there
/// is none.
pub open spec fn reads(sightings: Seq<Sighting>, first: int, end: int, to_last: bool) -> bool {
    &&& first < end <= sightings.len()
    &&& to_last ==> end == sightings.len()
    &&& !to_last ==> forall|k: int| first <= k < end - 1 ==> !sightings[k].to_hit
    &&& !to_last && end < sightings.len() ==> sightings[end - 1].to_hit
}

/// Every state of a scan is well formed: a timestamp is only held for a
/// marker that was found, and the to-marker is only found after the
/// from-marker.
pub proof fn lemma_state_well_formed(sightings: Seq<Sighting>, n: int, from_last: bool)
    requires
        0 <= n <= sightings.len(),
    ensures
        state_after(sightings, n, from_last).wf(),
    decreases n,
{
    if n > 0 {
        lemma_state_well_formed(sightings, n - 1, from_last);
    }
}

/// A scan that no line in `next..end` stops gets from `next` to `end`.
pub proof fn lemma_scan_runs_on(
    sightings: Seq<Sighting>,
    from_last: bool,
    to_last: bool,
    next: int,
    end: int,
)
    requires
        0 <= next <= end <= sightings.len(),
        forall|k: int| next <= k < end ==> !halts_at(sightings, k, from_last, to_last),
    ensures
        scan_from(state_after(sightings, next, from_last), sightings, next, from_last, to_last)
            == scan_from(state_after(sightings, end, from_last), sightings, end, from_last, to_last),
    decreases end - next,
{
    if next < end {
        assert(!halts_at(sightings, next, from_last, to_last));
        lemma_scan_runs_on(sightings, from_last, to_last, next + 1, end);
    }
}

/// A scan that no line stops ends in the state after all lines.
pub proof fn lemma_scan_to_end(sightings: Seq<Sighting>, from_last: bool, to_last: bool)
    requires
        forall|k: int| 0 <= k < sightings.len() ==> !halts_at(sightings, k, from_last, to_last),
    ensures
        final_state(sightings, from_last, to_last) == state_after(
            sightings,
            sightings.len() as int,
            from_last,
        ),
{
    lemma_scan_runs_on(sightings, from_last, to_last, 0, sightings.len() as int);
}

/// A scan that line `j` is the first to stop ends in the state after line `j`.
pub proof fn lemma_scan_to_stop(sightings: Seq<Sighting>, from_last: bool, to_last: bool, j: int)
    requires
        0 <= j < sightings.len(),
        halts_at(sightings, j, from_last, to_last),
        forall|k: int| 0 <= k < j ==> !halts_at(sightings, k, from_last, to_last),
    ensures
        final_state(sightings, from_last, to_last) == state_after(sightings, j + 1, from_last),
{
    lemma_scan_runs_on(sightings, from_last, to_last, 0, j);
}

/// Until a line matches the from-pattern nothing is recorded.
pub proof fn lemma_idle_before_from(sightings: Seq<Sighting>, n: int, from_last: bool)
    requires
        0 <= n <= sightings.len(),
        forall|k: int| 0 <= k < n ==> !sightings[k].from_hit,
    ensures
        state_after(sightings, n, from_last) == ScanState::start(),
    decreases n,
{
    if n > 0 {
        lemma_idle_before_from(sightings, n - 1, from_last);
    }
}

/// From the first line that matches the from-pattern on, the from-marker is
/// found.
pub proof fn lemma_found_from(sightings: Seq<Sighting>, n: int, from_last: bool, first: int)
    requires
        first_from_hit(sightings, first),
        first < n <= sightings.len(),
    ensures
        state_after(sightings, n, from_last).from_found,
    decreases n,
{
    if n == first + 1 {
        lemma_idle_before_from(sightings, first, from_last);
    } else {
        lemma_found_from(sightings, n - 1, from_last, first);
    }
}

/// Line `k` stops the scan exactly where the first match of the to-pattern
/// counts, the line matches it, and the from-marker was found by then.
pub proof fn lemma_halts_at(
    sightings: Seq<Sighting>,
    k: int,
    from_last: bool,
    to_last: bool,
    first: int,
)
    requires
        first_from_hit(sightings, first),
        0 <= k < sightings.len(),
    ensures
        halts_at(sightings, k, from_last, to_last) == (!to_last && first <= k
            && sightings[k].to_hit),
{
    if k < first {
        lemma_idle_before_from(sightings, k, from_last);
    } else if k == first {
        lemma_idle_before_from(sightings, k, from_last);
    } else {
        lemma_found_from(sightings, k, from_last, first);
    }
}

/// Where the first match of the from-pattern counts, its line gives the
/// from-timestamp for good.
pub proof fn lemma_first_from_stays(sightings: Seq<Sighting>, n: int, first: int)
    requires
        first_from_hit(sightings, first),
        first < n <= sightings.len(),
    ensures
        state_after(sightings, n, false).from_timestamp == sightings[first].stamp,
    decreases n,
{
    if n == first + 1 {
        lemma_idle_before_from(sightings, first, false);
    } else {
        lemma_found_from(sightings, n - 1, false, first);
        lemma_first_from_stays(sightings, n - 1, first);
    }
}

/// Where the last match of the from-pattern counts, the from-timestamp is
/// that of the latest matching line that carries one.
pub proof fn lemma_last_from_wins(sightings: Seq<Sighting>, n: int, i: int)
    requires
        0 <= i < n <= sightings.len(),
        stamped_from(sightings[i]),
        forall|k: int| i < k < n ==> !stamped_from(sightings[k]),
    ensures
        state_after(sightings, n, true).from_timestamp == sightings[i].stamp,
    decreases n,
{
    if n > i + 1 {
        lemma_last_from_wins(sightings, n - 1, i);
        assert(!stamped_from(sightings[n - 1]));
    }
}

/// Lines that match the from-pattern without a timestamp leave the
/// from-timestamp empty.
pub proof fn lemma_unstamped_from(sightings: Seq<Sighting>, n: int, from_last: bool)
    requires
        0 <= n <= sightings.len(),
        forall|k: int| 0 <= k < n ==> !stamped_from(sightings[k]),
    ensures
        state_after(sightings, n, from_last).from_timestamp is None,
    decreases n,
{
    if n > 0 {
        lemma_unstamped_from(sightings, n - 1, from_last);
        assert(!stamped_from(sightings[n - 1]));
    }
}

/// A line that matches the to-pattern at or after the first from-line makes
/// the to-marker found.
pub proof fn lemma_found_to(sightings: Seq<Sighting>, n: int, from_last: bool, first: int, j: int)
    requires
        first_from_hit(sightings, first),
        first <= j < n <= sightings.len(),
        sightings[j].to_hit,
    ensures
        state_after(sightings, n, from_last).to_found,
    decreases n,
{
    if n == j + 1 {
        if j == first {
            lemma_idle_before_from(sightings, first, from_last);
        } else {
            lemma_found_from(sightings, j, from_last, first);
        }
    } else {
        lemma_found_to(sightings, n - 1, from_last, first, j);
    }
}

/// While no line at or after the first from-line matches the to-pattern, the
/// to-marker is not found.
pub proof fn lemma_unfound_to(sightings: Seq<Sighting>, n: int, from_last: bool, first: int)
    requires
        0 <= n <= sightings.len(),
        0 <= first,
        forall|k: int| 0 <= k < first && k < n ==> !sightings[k].from_hit,
        forall|k: int| first <= k < n ==> !sightings[k].to_hit,
    ensures
        !state_after(sightings, n, from_last).to_found,
    decreases n,
{
    if n > 0 {
        lemma_unfound_to(sightings, n - 1, from_last, first);
        if n - 1 < first {
            lemma_idle_before_from(sightings, n, from_last);
        }
    }
}

/// The to-timestamp is that of the latest line that counts as the to-marker
/// and carries a timestamp.
pub proof fn lemma_last_to_wins(
    sightings: Seq<Sighting>,
    n: int,
    from_last: bool,
    first: int,
    j: int,
)
    requires
        first_from_hit(sightings, first),
        first <= j < n <= sightings.len(),
        stamped_to(sightings[j]),
        forall|k: int| j < k < n ==> !stamped_to(sightings[k]),
    ensures
        state_after(sightings, n, from_last).to_timestamp == sightings[j].stamp,
    decreases n,
{
    if n == j + 1 {
        if j == first {
            lemma_idle_before_from(sightings, first, from_last);
        } else {
            lemma_found_from(sightings, j, from_last, first);
        }
    } else {
        lemma_last_to_wins(sightings, n - 1, from_last, first, j);
        assert(!stamped_to(sightings[n - 1]));
    }
}

/// The state after `n` lines depends on those lines alone.
pub proof fn lemma_state_of_prefix(sightings: Seq<Sighting>, n: int, m: int, from_last: bool)
    requires
        0 <= n <= m <= sightings.len(),
    ensures
        state_after(sightings.take(m), n, from_last) == state_after(sightings, n, from_last),
    decreases n,
{
    if n > 0 {
        lemma_state_of_prefix(sightings, n - 1, m, from_last);
    }
}

/// A scan ends in the state after the lines that it reads.
pub proof fn lemma_scan_reads(
    sightings: Seq<Sighting>,
    from_last: bool,
    to_last: bool,
    first: int,
    end: int,
)
    requires
        first_from_hit(sightings, first),
        reads(sightings, first, end, to_last),
    ensures
        final_state(sightings, from_last, to_last) == state_after(sightings, end, from_last),
{
    assert forall|k: int| 0 <= k < end - 1 implies !halts_at(sightings, k, from_last, to_last) by {
        lemma_halts_at(sightings, k, from_last, to_last, first);
    }
    lemma_halts_at(sightings, end - 1, from_last, to_last, first);
    if halts_at(sightings, end - 1, from_last, to_last) {
        lemma_scan_to_stop(sightings, from_last, to_last, end - 1);
    } else {
        lemma_scan_to_end(sightings, from_last, to_last);
    }
}

/// Every scan that finds the from-marker reads some number of lines beyond
/// the first from-line.
pub proof fn lemma_reads_some(sightings: Seq<Sighting>, first: int, to_last: bool, upto: int) -> (end:
    int)
    requires
        first_from_hit(sightings, first),
        first < upto <= sightings.len(),
        !to_last ==> forall|k: int| first <= k < upto - 1 ==> !sightings[k].to_hit,
    ensures
        reads(sightings, first, end, to_last),
        upto <= end,
        !to_last ==> forall|k: int| first <= k < end - 1 ==> !sightings[k].to_hit,
    decreases sightings.len() - upto,
{
    if to_last {
        sightings.len() as int
    } else if upto == sightings.len() || sightings[upto - 1].to_hit {
        upto
    } else {
        lemma_reads_some(sightings, first, to_last, upto + 1)
    }
}

/// The duration between the two markers: where the scan reads `end` lines,
/// line `i` is the from-line that counts and line `j` the to-line that counts,
/// and both carry a timestamp, the scan reports the time from the one to the
/// other.
///
/// The from-line that counts is the first one that matches the from-pattern
/// or, where the last match counts, the latest one read that carries a
/// timestamp. The to-line that counts is the latest line read, not before
/// the first from-line, that matches the to-pattern and carries a timestamp.
pub proof fn law_duration_between_markers(
    sightings: Seq<Sighting>,
    from_last: bool,
    to_last: bool,
    first: int,
    end: int,
    i: int,
    j: int,
    from_pattern: Seq<char>,
    to_pattern: Seq<char>,
)
    requires
        first_from_hit(sightings, first),
        reads(sightings, first, end, to_last),
        0 <= i < end,
        stamped_from(sightings[i]),
        !from_last ==> i == first,
        from_last ==> forall|k: int| i < k < end ==> !stamped_from(sightings[k]),
        first <= j < end,
        stamped_to(sightings[j]),
        forall|k: int| j < k < end ==> !stamped_to(sightings[k]),
    ensures
        final_state(sightings, from_last, to_last).outcome(from_pattern, to_pattern) == difference(
            sightings[i].stamp->0,
            sightings[j].stamp->0,
        ),
{
    lemma_scan_reads(sightings, from_last, to_last, first, end);
    lemma_found_from(sightings, end, from_last, first);
    lemma_found_to(sightings, end, from_last, first, j);
    lemma_last_to_wins(sightings, end, from_last, first, j);
    if from_last {
        lemma_last_from_wins(sightings, end, i);
    } else {
        lemma_first_from_stays(sightings, end, first);
    }
}

/// Where the first match of the from-pattern counts, the from-timestamp is
/// taken from the earliest line that matches it, whatever follows.
pub proof fn law_first_from_match_counts(sightings: Seq<Sighting>, to_last: bool, first: int)
    requires
        first_from_hit(sightings, first),
    ensures
        final_state(sightings, false, to_last).from_found,
        final_state(sightings, false, to_last).from_timestamp == sightings[first].stamp,
{
    let end = lemma_reads_some(sightings, first, to_last, first + 1);
    lemma_scan_reads(sightings, false, to_last, first, end);
    lemma_found_from(sightings, end, false, first);
    lemma_first_from_stays(sightings, end, first);
}

/// Where the last match of the from-pattern counts, the from-timestamp is
/// taken from the latest line with a timestamp that matches it among the
/// lines that the scan reads.
pub proof fn law_last_from_match_counts(
    sightings: Seq<Sighting>,
    to_last: bool,
    first: int,
    end: int,
    i: int,
)
    requires
        first_from_hit(sightings, first),
        reads(sightings, first, end, to_last),
        0 <= i < end,
        stamped_from(sightings[i]),
        forall|k: int| i < k < end ==> !stamped_from(sightings[k]),
    ensures
        final_state(sightings, true, to_last).from_found,
        final_state(sightings, true, to_last).from_timestamp == sightings[i].stamp,
{
    lemma_scan_reads(sightings, true, to_last, first, end);
    lemma_found_from(sightings, end, true, first);
    lemma_last_from_wins(sightings, end, i);
}

/// Where the first match of the to-pattern counts, the scan stops at the
/// first line that matches it once the from-marker is found: that line gives
/// the to-timestamp, and two files that agree up to it give the same result.
pub proof fn law_stops_at_first_to_match(
    sightings: Seq<Sighting>,
    other: Seq<Sighting>,
    from_last: bool,
    first: int,
    j: int,
)
    requires
        first_from_hit(sightings, first),
        first <= j < sightings.len(),
        sightings[j].to_hit,
        forall|k: int| first <= k < j ==> !sightings[k].to_hit,
        j < other.len(),
        other.take(j + 1) == sightings.take(j + 1),
    ensures
        final_state(sightings, from_last, false).to_found,
        final_state(sightings, from_last, false).to_timestamp == sightings[j].stamp,
        final_state(other, from_last, false) == final_state(sightings, from_last, false),
{
    assert forall|k: int| 0 <= k <= j implies other[k] == sightings[k] by {
        assert(other.take(j + 1)[k] == other[k]);
        assert(sightings.take(j + 1)[k] == sightings[k]);
    }
    lemma_scan_reads(sightings, from_last, false, first, j + 1);
    lemma_scan_reads(other, from_last, false, first, j + 1);
    lemma_state_of_prefix(sightings, j + 1, j + 1, from_last);
    lemma_state_of_prefix(other, j + 1, j + 1, from_last);
    lemma_found_to(sightings, j + 1, from_last, first, j);
    if j == first {
        lemma_idle_before_from(sightings, first, from_last);
    } else {
        lemma_found_from(sightings, j, from_last, first);
        lemma_unfound_to(sightings, j, from_last, first);
        lemma_state_well_formed(sightings, j, from_last);
    }
}

/// Where the last match of the to-pattern counts, the scan reads every line,
/// and the to-timestamp is taken from the latest line with a timestamp that
/// matches the to-pattern at or after the first from-line, whether or not
/// the from-timestamp changes after it.
pub proof fn law_last_to_match_counts(
    sightings: Seq<Sighting>,
    from_last: bool,
    first: int,
    j: int,
)
    requires
        first_from_hit(sightings, first),
        first <= j < sightings.len(),
        stamped_to(sightings[j]),
        forall|k: int| j < k < sightings.len() ==> !stamped_to(sightings[k]),
    ensures
        final_state(sightings, from_last, true) == state_after(
            sightings,
            sightings.len() as int,
            from_last,
        ),
        final_state(sightings, from_last, true).to_found,
        final_state(sightings, from_last, true).to_timestamp == sightings[j].stamp,
{
    let end = sightings.len() as int;
    lemma_scan_reads(sightings, from_last, true, first, end);
    lemma_found_to(sightings, end, from_last, first, j);
    lemma_last_to_wins(sightings, end, from_last, first, j);
}

/// A file in which no line matches the from-pattern gives the failure that
/// names the from-pattern as not found, and no other: nothing is recorded,
/// whatever matches the to-pattern.
pub proof fn law_from_never_matched(
    sightings: Seq<Sighting>,
    from_last: bool,
    to_last: bool,
    from_pattern: Seq<char>,
    to_pattern: Seq<char>,
)
    requires
        forall|k: int| 0 <= k < sightings.len() ==> !sightings[k].from_hit,
    ensures
        final_state(sightings, from_last, to_last) == ScanState::start(),
        final_state(sightings, from_last, to_last).outcome(from_pattern, to_pattern) == Err::<
            crate::timestamp::Duration,
            ScanFailure,
        >(ScanFailure::NotFound { pattern: from_pattern }),
{
    assert forall|k: int| 0 <= k < sightings.len() implies !halts_at(
        sightings,
        k,
        from_last,
        to_last,
    ) by {
        lemma_idle_before_from(sightings, k, from_last);
    }
    lemma_scan_to_end(sightings, from_last, to_last);
    lemma_idle_before_from(sightings, sightings.len() as int, from_last);
}

/// A file in which the from-marker is found, but no line from the first
/// from-line on matches the to-pattern, gives the failure that names the
/// to-pattern as not found.
pub proof fn law_to_never_matched(
    sightings: Seq<Sighting>,
    from_last: bool,
    to_last: bool,
    first: int,
    from_pattern: Seq<char>,
    to_pattern: Seq<char>,
)
    requires
        first_from_hit(sightings, first),
        forall|k: int| first <= k < sightings.len() ==> !sightings[k].to_hit,
    ensures
        final_state(sightings, from_last, to_last).outcome(from_pattern, to_pattern) == Err::<
            crate::timestamp::Duration,
            ScanFailure,
        >(ScanFailure::NotFound { pattern: to_pattern }),
{
    let end = sightings.len() as int;
    lemma_scan_reads(sightings, from_last, to_last, first, end);
    lemma_found_from(sightings, end, from_last, first);
    lemma_unfound_to(sightings, end, from_last, first);
}

/// Where the lines that match the from-pattern carry no timestamp, the scan
/// still runs its course: with the to-marker found it ends in the failure of
/// a missing timestamp.
pub proof fn law_from_without_timestamp(
    sightings: Seq<Sighting>,
    from_last: bool,
    to_last: bool,
    first: int,
    j: int,
    from_pattern: Seq<char>,
    to_pattern: Seq<char>,
)
    requires
        first_from_hit(sightings, first),
        forall|k: int| 0 <= k < sightings.len() ==> !stamped_from(sightings[k]),
        first <= j < sightings.len(),
        sightings[j].to_hit,
    ensures
        final_state(sightings, from_last, to_last).outcome(from_pattern, to_pattern) == Err::<
            crate::timestamp::Duration,
            ScanFailure,
        >(ScanFailure::MissingTimestamp),
{
    let end = lemma_reads_some(sightings, first, to_last, first + 1);
    lemma_scan_reads(sightings, from_last, to_last, first, end);
    lemma_found_from(sightings, end, from_last, first);
    lemma_unstamped_from(sightings, end, from_last);
    if j < end {
        lemma_found_to(sightings, end, from_last, first, j);
    } else {
        lemma_found_to(sightings, end, from_last, first, end - 1);
    }
}

} // verus!

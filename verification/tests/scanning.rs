use logspan::error::{ScanError, Side};
use logspan::measure::scan;
use logspan::plain::{read_plain_stamp, run, scan_line};
use logspan::regex_mode::{run_regex, RegexPlan};
use logspan::report::format_duration;
use logspan::scan::{replay, MatchSpec, Progress, ScanState, Sighting};
use logspan::timestamp::{Duration, Timestamp};

fn lines(text: &[&str]) -> Vec<String> {
    text.iter().map(|line| format!("{}\n", line)).collect()
}

fn at(hour: u32, minute: u32, second: u32) -> Timestamp {
    Timestamp { year: 2021, month: 1, day: 1, hour, minute, second, nanosecond: 0 }
}

fn spec(pattern: &str, last: bool) -> MatchSpec {
    MatchSpec { pattern: pattern.to_string(), last }
}

fn two_markers() -> Vec<String> {
    lines(&["2021-01-01 10:00:00> START", "2021-01-01 10:05:30> END"])
}

fn many_markers() -> Vec<String> {
    lines(&[
        "2021-01-01 09:00:00> END early",
        "2021-01-01 10:00:00> START one",
        "2021-01-01 10:01:00> noise",
        "2021-01-01 10:02:00> END one",
        "2021-01-01 10:03:00> START two",
        "2021-01-01 10:04:00> END two",
        "2021-01-01 10:06:00> START three",
    ])
}

fn not_found(pattern: &str) -> Result<Duration, ScanError> {
    Err(ScanError::NotFound { pattern: pattern.to_string() })
}

#[test]
fn two_markers_five_and_a_half_minutes_apart() {
    let d = run(&two_markers(), "START", "END", false, false).unwrap();
    assert_eq!(d, Duration { seconds: 330 });
    assert_eq!(format_duration(&d), "+00:05:30");
}

#[test]
fn two_markers_found_by_regular_expressions() {
    let d = run_regex(&two_markers(), "STAR.", "EN.", false, false).unwrap();
    assert_eq!(d, Duration { seconds: 330 });
    assert_eq!(format_duration(&d), "+00:05:30");
}

#[test]
fn both_modes_agree_on_every_choice_of_first_and_last() {
    for from_last in [false, true] {
        for to_last in [false, true] {
            assert_eq!(
                run(&many_markers(), "START", "END", from_last, to_last),
                run_regex(&many_markers(), "START", "END", from_last, to_last)
            );
        }
    }
}

#[test]
fn the_first_match_of_each_pattern_counts() {
    assert_eq!(run(&many_markers(), "START", "END", false, false), Ok(Duration { seconds: 120 }));
}

#[test]
fn the_last_from_match_before_the_stop_counts() {
    let file = lines(&[
        "2021-01-01 10:00:00> START",
        "2021-01-01 10:01:00> START",
        "2021-01-01 10:02:00> END",
        "2021-01-01 10:03:00> START",
    ]);
    assert_eq!(run(&file, "START", "END", true, false), Ok(Duration { seconds: 60 }));
    assert_eq!(run(&file, "START", "END", false, false), Ok(Duration { seconds: 120 }));
}

#[test]
fn the_last_to_match_counts_to_the_end_of_the_file() {
    assert_eq!(run(&many_markers(), "START", "END", false, true), Ok(Duration { seconds: 240 }));
}

#[test]
fn a_later_from_match_moves_the_start_behind_the_last_end() {
    assert_eq!(run(&many_markers(), "START", "END", true, true), Ok(Duration { seconds: -120 }));
    assert_eq!(
        format_duration(&run(&many_markers(), "START", "END", true, true).unwrap()),
        "\u{2212}00:02:00"
    );
}

#[test]
fn lines_after_the_first_to_match_do_not_matter() {
    let mut file = two_markers();
    let short = run(&file, "START", "END", false, false);
    file.push("2021-01-01 11:00:00> END\n".to_string());
    file.push("no timestamp here START END\n".to_string());
    file.push("2021-01-01 12:00:00> START\n".to_string());
    assert_eq!(run(&file, "START", "END", false, false), short);
    assert_eq!(run(&file, "START", "END", true, false), short);
    assert_eq!(run_regex(&file, "START", "END", false, false), short);
}

#[test]
fn a_to_match_before_the_from_match_is_passed_over() {
    let file = lines(&["2021-01-01 09:00:00> END", "2021-01-01 10:00:00> START"]);
    assert_eq!(run(&file, "START", "END", false, false), not_found("END"));
    assert_eq!(run(&file, "START", "END", true, true), not_found("END"));
}

#[test]
fn one_line_can_be_both_markers() {
    let file = lines(&["2021-01-01 10:00:00> START END"]);
    assert_eq!(run(&file, "START", "END", false, false), Ok(Duration { seconds: 0 }));
    assert_eq!(run_regex(&file, "START", "END", true, true), Ok(Duration { seconds: 0 }));
}

#[test]
fn an_empty_file_misses_the_from_pattern_first() {
    assert_eq!(run(&Vec::new(), "START", "END", false, false), not_found("START"));
    assert_eq!(run_regex(&Vec::new(), "START", "END", true, true), not_found("START"));
}

#[test]
fn a_file_without_the_from_pattern_names_it_as_not_found() {
    let file = lines(&["no timestamp END", "2021-01-01 10:05:30> END"]);
    for from_last in [false, true] {
        for to_last in [false, true] {
            assert_eq!(run(&file, "START", "END", from_last, to_last), not_found("START"));
            assert_eq!(run_regex(&file, "START", "END", from_last, to_last), not_found("START"));
        }
    }
}

#[test]
fn a_file_without_the_to_pattern_names_it_as_not_found() {
    let file = lines(&["2021-01-01 10:00:00> START", "2021-01-01 10:05:30> STOP"]);
    assert_eq!(run(&file, "START", "END", false, false), not_found("END"));
    assert_eq!(run_regex(&file, "START", "END", false, true), not_found("END"));
}

#[test]
fn a_from_line_without_a_delimiter_fails_at_the_end_of_the_scan() {
    let file = lines(&["2021-01-01 10:00:00 START", "2021-01-01 10:05:30> END"]);
    assert_eq!(run(&file, "START", "END", false, false), Err(ScanError::MissingTimestamp));
    let file = lines(&["2021-01-01 10:00:00 START", "2021-01-01 10:05:30> STOP"]);
    assert_eq!(run(&file, "START", "END", false, false), not_found("END"));
}

#[test]
fn a_from_line_without_a_date_fails_at_the_end_of_the_scan() {
    let file = lines(&["10:00:00 START", "2021-01-01 10:05:30 END"]);
    assert_eq!(run_regex(&file, "START", "END", false, false), Err(ScanError::MissingTimestamp));
    let file = lines(&["10:00:00 START", "2021-01-01 10:05:30 STOP"]);
    assert_eq!(run_regex(&file, "START", "END", false, false), not_found("END"));
}

#[test]
fn a_to_line_without_a_timestamp_fails_as_well() {
    let file = lines(&["2021-01-01 10:00:00> START", "END without a stamp"]);
    assert_eq!(run(&file, "START", "END", false, false), Err(ScanError::MissingTimestamp));
    assert_eq!(run_regex(&file, "START", "END", false, false), Err(ScanError::MissingTimestamp));
}

#[test]
fn a_later_match_without_a_timestamp_keeps_the_earlier_one() {
    let file = lines(&[
        "2021-01-01 10:00:00> START",
        "START again, no stamp",
        "2021-01-01 10:05:30> END",
        "END again, no stamp",
    ]);
    assert_eq!(run(&file, "START", "END", true, true), Ok(Duration { seconds: 330 }));
    assert_eq!(run_regex(&file, "START", "END", true, true), Ok(Duration { seconds: 330 }));
}

#[test]
fn the_regular_expression_finds_the_date_anywhere_in_the_line() {
    let file = lines(&["[worker 7] 2021-01-01 10:00:00 START", "END at 2021-01-01 10:05:30, done"]);
    assert_eq!(run_regex(&file, "START$", "^END", false, false), not_found("START$"));
    assert_eq!(run_regex(&file, "START", "^END", false, false), Ok(Duration { seconds: 330 }));
    assert_eq!(run(&file, "START", "END", false, false), Err(ScanError::MissingTimestamp));
}

#[test]
fn a_malformed_expression_is_refused_whatever_the_file_holds() {
    for file in [Vec::new(), two_markers()] {
        assert!(matches!(
            run_regex(&file, "STAR(T", "END", false, false),
            Err(ScanError::InvalidPattern { pattern, .. }) if pattern == "STAR(T"
        ));
        assert!(matches!(
            run_regex(&file, "START", "EN)D", false, false),
            Err(ScanError::InvalidPattern { pattern, .. }) if pattern == "EN)D"
        ));
        assert!(matches!(
            run_regex(&file, "(", ")", false, false),
            Err(ScanError::InvalidPattern { pattern, .. }) if pattern == "("
        ));
    }
}

#[test]
fn a_malformed_expression_is_refused_before_any_line_is_read() {
    let refused = RegexPlan::compile(&spec("STAR(T", false), &spec("END", false));
    assert!(matches!(
        refused,
        Err(ScanError::InvalidPattern { ref pattern, ref reason }) if pattern == "STAR(T" && !reason.is_empty()
    ));
    assert!(RegexPlan::compile(&spec("START", false), &spec("END", true)).is_ok());
}

#[test]
fn a_literal_pattern_is_not_read_as_an_expression() {
    let file = lines(&["2021-01-01 10:00:00> STAR(T", "2021-01-01 10:05:30> E.D"]);
    assert_eq!(run(&file, "STAR(T", "E.D", false, false), Ok(Duration { seconds: 330 }));
    let file = lines(&["2021-01-01 10:00:00> START", "2021-01-01 10:05:30> END"]);
    assert_eq!(run(&file, "START", "E.D", false, false), not_found("E.D"));
    assert_eq!(run_regex(&file, "START", "E.D", false, false), Ok(Duration { seconds: 330 }));
}

#[test]
fn a_scan_line_by_line_stops_where_the_whole_scan_stops() {
    let from = spec("START", false);
    let to = spec("END", false);
    let mut state = ScanState::new();
    let mut read = 0;
    for line in many_markers() {
        read += 1;
        if scan_line(&mut state, &line, &from, &to).stop {
            break;
        }
    }
    assert_eq!(read, 4);
    assert_eq!(
        state,
        ScanState {
            from_found: true,
            to_found: true,
            from_timestamp: Some(at(10, 0, 0)),
            to_timestamp: Some(at(10, 2, 0)),
        }
    );
    assert_eq!(state.finish("START", "END"), Ok(Duration { seconds: 120 }));
}

#[test]
fn a_plan_scans_line_by_line() {
    let plan = RegexPlan::compile(&spec("START", true), &spec("END", false)).unwrap();
    let mut state = ScanState::new();
    let mut read = 0;
    for line in lines(&["x 2021-01-01 10:00:00 START", "2021-01-01 10:01:00 START", "END 2021-01-01 10:02:00", "END"]) {
        read += 1;
        if plan.scan_line(&mut state, &line).stop {
            break;
        }
    }
    assert_eq!(read, 3);
    assert_eq!(plan.finish(&state), Ok(Duration { seconds: 60 }));
    assert_eq!(plan.read_stamp("a 2021-01-01 10:00:00 b 2022-02-02 11:11:11"), Some(at(10, 0, 0)));
    assert_eq!(plan.read_stamp("2021-01-01T10:00:00"), None);
    assert_eq!(plan.read_stamp("2021-13-01 10:00:00"), None);
}

#[test]
fn the_stamp_of_a_plain_line_stands_in_front_of_the_delimiter() {
    assert_eq!(read_plain_stamp("2021-01-01 10:00:00> START"), Some(at(10, 0, 0)));
    assert_eq!(read_plain_stamp("2021-01-01 10:00:00>"), Some(at(10, 0, 0)));
    assert_eq!(read_plain_stamp("x 2021-01-01 10:00:00> START"), None);
    assert_eq!(read_plain_stamp("2021-01-01 10:00:00 START"), None);
    assert_eq!(read_plain_stamp("> 2021-01-01 10:00:00"), None);
}

#[test]
fn a_state_steps_through_given_sightings() {
    let idle = Progress { from_matched: false, to_matched: false, stop: false };
    let from_only = Progress { from_matched: true, to_matched: false, stop: false };
    let mut state = ScanState::new();
    let to_only = Sighting { from_hit: false, to_hit: true, stamp: Some(at(9, 0, 0)) };
    assert_eq!(state.advance(&to_only, false, false), idle);
    assert_eq!(state, ScanState::new());
    let from = Sighting { from_hit: true, to_hit: false, stamp: Some(at(10, 0, 0)) };
    assert_eq!(state.advance(&from, false, false), from_only);
    assert!(state.from_found && !state.to_found);
    assert_eq!(state.from_timestamp, Some(at(10, 0, 0)));
    let again = Sighting { from_hit: true, to_hit: false, stamp: Some(at(10, 1, 0)) };
    let mut first = state;
    assert_eq!(first.advance(&again, false, false), idle);
    assert_eq!(first, state);
    let mut last = state;
    assert_eq!(last.advance(&again, true, false), from_only);
    assert_eq!(last.from_timestamp, Some(at(10, 1, 0)));
    let unstamped = Sighting { from_hit: true, to_hit: true, stamp: None };
    assert_eq!(
        last.advance(&unstamped, true, true),
        Progress { from_matched: true, to_matched: true, stop: false }
    );
    assert_eq!(last.from_timestamp, Some(at(10, 1, 0)));
    assert!(last.to_found);
    assert_eq!(last.to_timestamp, None);
    assert_eq!(
        last.advance(&to_only, true, false),
        Progress { from_matched: false, to_matched: true, stop: true }
    );
    assert_eq!(last.to_timestamp, Some(at(9, 0, 0)));
}

#[test]
fn a_line_reports_which_marker_it_was() {
    let from = spec("START", true);
    let to = spec("END", false);
    let mut state = ScanState::new();
    assert_eq!(
        scan_line(&mut state, "2021-01-01 09:00:00> END", &from, &to),
        Progress { from_matched: false, to_matched: false, stop: false }
    );
    assert_eq!(
        scan_line(&mut state, "2021-01-01 10:00:00> START", &from, &to),
        Progress { from_matched: true, to_matched: false, stop: false }
    );
    assert_eq!(
        scan_line(&mut state, "2021-01-01 10:00:01> START END", &from, &to),
        Progress { from_matched: true, to_matched: true, stop: true }
    );
    assert_eq!(state.finish("START", "END"), Ok(Duration { seconds: 0 }));
}

#[test]
fn a_replay_of_sightings_ends_where_the_scan_ends() {
    let sightings = vec![
        Sighting { from_hit: false, to_hit: true, stamp: Some(at(9, 0, 0)) },
        Sighting { from_hit: true, to_hit: false, stamp: Some(at(10, 0, 0)) },
        Sighting { from_hit: false, to_hit: true, stamp: Some(at(10, 2, 0)) },
        Sighting { from_hit: true, to_hit: true, stamp: Some(at(10, 4, 0)) },
        Sighting { from_hit: true, to_hit: false, stamp: None },
    ];
    let state = replay(&sightings, false, false);
    assert_eq!((state.from_timestamp, state.to_timestamp), (Some(at(10, 0, 0)), Some(at(10, 2, 0))));
    let state = replay(&sightings, true, false);
    assert_eq!((state.from_timestamp, state.to_timestamp), (Some(at(10, 0, 0)), Some(at(10, 2, 0))));
    let state = replay(&sightings, false, true);
    assert_eq!((state.from_timestamp, state.to_timestamp), (Some(at(10, 0, 0)), Some(at(10, 4, 0))));
    let state = replay(&sightings, true, true);
    assert_eq!((state.from_timestamp, state.to_timestamp), (Some(at(10, 4, 0)), Some(at(10, 4, 0))));
    assert_eq!(replay(&Vec::new(), true, true), ScanState::new());
}

#[test]
fn the_end_of_a_scan_names_what_is_missing() {
    let mut state = ScanState::new();
    assert_eq!(state.settle("A", "B"), Err(ScanError::NotFound { pattern: "A".to_string() }));
    state.mark_from(None);
    assert_eq!(state.settle("A", "B"), Err(ScanError::NotFound { pattern: "B".to_string() }));
    state.mark_to(Some(at(10, 0, 0)));
    assert_eq!(state.settle("A", "B"), Err(ScanError::MissingTimestamp));
    assert_eq!(state.finish("A", "B"), Err(ScanError::MissingTimestamp));
    state.mark_from(Some(at(11, 0, 0)));
    assert_eq!(state.settle("A", "B"), Ok((at(11, 0, 0), at(10, 0, 0))));
    assert_eq!(state.finish("A", "B"), Ok(Duration { seconds: -3600 }));
}

#[test]
fn exactly_one_way_of_giving_a_pattern_is_accepted() {
    assert_eq!(MatchSpec::select(Some("a".to_string()), None, Side::From), Ok(spec("a", false)));
    assert_eq!(MatchSpec::select(None, Some("b".to_string()), Side::To), Ok(spec("b", true)));
    assert_eq!(
        MatchSpec::select(Some("a".to_string()), Some("b".to_string()), Side::To),
        Err(ScanError::ConflictingModes { side: Side::To })
    );
    assert_eq!(
        MatchSpec::select(None, None, Side::From),
        Err(ScanError::MissingPattern { side: Side::From })
    );
}

#[test]
fn every_failure_has_its_message() {
    let text = |e: ScanError| e.message();
    assert_eq!(text(ScanError::NotFound { pattern: "START".to_string() }), "Did not find 'START'");
    assert_eq!(text(ScanError::MissingTimestamp), "Could not parse a timestamp");
    assert_eq!(
        text(ScanError::InvalidPattern { pattern: "(".to_string(), reason: "unclosed group".to_string() }),
        "'(' is not a valid regex: unclosed group"
    );
    assert_eq!(text(ScanError::NoSuchFile { path: "x.log".to_string() }), "x.log does not exist");
    assert_eq!(text(ScanError::NotAFile { path: "dir".to_string() }), "dir is not a file");
    assert_eq!(text(ScanError::Forbidden { pattern: "[0-9]".to_string() }), "Must not contain: [0-9]");
    assert_eq!(text(ScanError::Unparsable { text: "soon".to_string() }), "could not parse soon");
    assert_eq!(
        text(ScanError::ConflictingModes { side: Side::From }),
        "the from pattern was given in both modes"
    );
    assert_eq!(text(ScanError::MissingPattern { side: Side::To }), "the to pattern was not given");
}

#[test]
fn a_scan_takes_the_patterns_as_texts_or_as_expressions() {
    let file = two_markers();
    assert_eq!(scan(&file, &spec("START", false), &spec("END", false), false), Ok(Duration { seconds: 330 }));
    assert_eq!(scan(&file, &spec("STAR.", false), &spec("EN.", false), true), Ok(Duration { seconds: 330 }));
    assert_eq!(scan(&file, &spec("STAR.", false), &spec("EN.", false), false), not_found("STAR."));
    assert!(matches!(
        scan(&file, &spec("START", false), &spec("(", true), true),
        Err(ScanError::InvalidPattern { pattern, .. }) if pattern == "("
    ));
    assert_eq!(scan(&file, &spec("START", false), &spec("(", true), false), not_found("("));
}

#[test]
fn a_scan_follows_the_mode_of_each_marker() {
    let file = many_markers();
    for use_regex in [false, true] {
        assert_eq!(scan(&file, &spec("START", false), &spec("END", false), use_regex), Ok(Duration { seconds: 120 }));
        assert_eq!(scan(&file, &spec("START", false), &spec("END", true), use_regex), Ok(Duration { seconds: 240 }));
        assert_eq!(scan(&file, &spec("START", true), &spec("END", false), use_regex), Ok(Duration { seconds: 120 }));
        assert_eq!(scan(&file, &spec("START", true), &spec("END", true), use_regex), Ok(Duration { seconds: -120 }));
    }
}

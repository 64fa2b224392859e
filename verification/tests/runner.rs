use std::path::PathBuf;
use std::time::Duration;

use frascii::lane::Lane;
use frascii::runner::{tail_start, verdict, Outcome, Runner, Style, FAIL_TAIL};

fn runner() -> Runner {
    Runner::new(
        &PathBuf::from("/tmp/does-not-need-to-exist"),
        PathBuf::from("cargo"),
        Style::with_colour(false),
    )
}

fn outcome(lane: Lane, passed: bool) -> Outcome {
    Outcome { lane, passed, elapsed: Duration::from_millis(5) }
}

#[test]
fn log_paths_are_named_after_their_lane() {
    let runner = runner();
    assert!(
        runner
            .log_path(Lane::Clippy)
            .ends_with("target/verify-logs/clippy.log")
    );
}

#[test]
fn logs_live_under_the_workspace_target_directory() {
    let runner = runner();
    assert_eq!(
        runner.log_dir(),
        &PathBuf::from("/tmp/does-not-need-to-exist/target/verify-logs")
    );
    assert_eq!(Runner::log_file(Lane::Doc), "doc.log");
    assert_eq!(runner.cargo(), &PathBuf::from("cargo"));
}

#[test]
fn a_sweep_where_everything_passed_exits_zero() {
    let mut runner = runner();
    assert_eq!(runner.exit_code(), 0);
    runner.record(outcome(Lane::Fmt, true));
    runner.record(outcome(Lane::Test, true));
    assert_eq!(runner.exit_code(), 0);
    assert_eq!(runner.failed(), 0);
    assert_eq!(runner.outcomes().len(), 2);
}

#[test]
fn the_first_failing_lane_decides_the_exit_code() {
    let mut runner = runner();
    runner.record(outcome(Lane::Fmt, true));
    runner.record(outcome(Lane::Build, false));
    runner.record(outcome(Lane::Test, false));
    assert_eq!(runner.exit_code(), 12);
    assert_eq!(runner.failed(), 2);
    assert_eq!(runner.outcomes()[1].lane, Lane::Build);
}

#[test]
fn the_name_column_fits_the_longest_recorded_lane() {
    let mut runner = runner();
    assert_eq!(runner.name_width(), 0);
    runner.record(outcome(Lane::Fmt, true));
    assert_eq!(runner.name_width(), 3);
    runner.record(outcome(Lane::Clippy, true));
    runner.record(outcome(Lane::Doc, true));
    assert_eq!(runner.name_width(), 6);
}

#[test]
fn the_tail_is_at_most_the_last_forty_lines() {
    assert_eq!(FAIL_TAIL, 40);
    assert_eq!(tail_start(0), 0);
    assert_eq!(tail_start(39), 0);
    assert_eq!(tail_start(40), 0);
    assert_eq!(tail_start(41), 1);
    assert_eq!(tail_start(1000), 960);
}

#[test]
fn verdicts_and_styles() {
    assert_eq!(verdict(true), "PASS");
    assert_eq!(verdict(false), "FAIL");
    let plain = Style::with_colour(false);
    assert_eq!(plain.reset, "");
    assert_eq!(plain.red, "");
    let colour = Style::with_colour(true);
    assert_eq!(colour.reset, "\x1b[0m");
    assert_eq!(colour.bold, "\x1b[1m");
    assert_eq!(colour.dim, "\x1b[2m");
    assert_eq!(colour.red, "\x1b[31m");
    assert_eq!(colour.green, "\x1b[32m");
    assert_eq!(runner().style().green, "");
}

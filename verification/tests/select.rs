use frascii::lane::{select_lanes, Lane};

#[test]
fn no_arguments_runs_every_lane() {
    assert_eq!(select_lanes(&[]).expect("no flags is valid"), Lane::ALL);
}

#[test]
fn only_selects_named_lanes_in_canonical_order() {
    let lanes = select_lanes(&["test".into(), "fmt".into()]).expect("both lanes are known");
    assert_eq!(lanes, vec![Lane::Fmt, Lane::Test]);
}

#[test]
fn only_deduplicates_a_repeated_lane() {
    let lanes = select_lanes(&["fmt".into(), "fmt".into()]).expect("fmt is known");
    assert_eq!(lanes, vec![Lane::Fmt]);
}

#[test]
fn only_rejects_an_unknown_lane_and_lists_the_known_ones() {
    let error = select_lanes(&["nope".into()]).expect_err("nope is not a lane");
    assert!(error.contains("nope"), "{error}");
    assert!(error.contains("clippy"), "{error}");
}

#[test]
fn a_partly_unknown_only_list_fails_rather_than_running_the_known_half() {
    let error = select_lanes(&["fmt".into(), "nope".into()]).expect_err("nope is not a lane");
    assert!(error.contains("nope"), "{error}");
}

#[test]
fn the_unknown_lane_message_names_every_unknown_and_every_known_lane() {
    let error = select_lanes(&["x".into(), "test".into(), "y".into()]).expect_err("x and y are unknown");
    assert_eq!(
        error,
        "unknown lane(s): x, y (known: fmt, clippy, build, test, doc)"
    );
}

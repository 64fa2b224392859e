use std::collections::HashSet;

use frascii::lane::{Lane, EXIT_USAGE};

#[test]
fn every_lane_has_a_distinct_exit_code_clear_of_the_usage_code() {
    let mut seen = HashSet::new();
    for lane in Lane::ALL {
        assert!(
            seen.insert(lane.exit_code()),
            "{} reuses exit code {}",
            lane.name(),
            lane.exit_code()
        );
        assert!(lane.exit_code() >= 10, "{} collides with a usage code", lane.name());
        assert_ne!(lane.exit_code(), EXIT_USAGE);
    }
}

#[test]
fn every_lane_round_trips_through_its_name() {
    for lane in Lane::ALL {
        assert_eq!(Lane::parse(lane.name()), Some(lane));
    }
    assert_eq!(Lane::parse("nope"), None);
    assert_eq!(Lane::parse(""), None);
}

#[test]
fn every_lane_describes_itself_as_the_cargo_command_it_runs() {
    for lane in Lane::ALL {
        let (args, _) = lane.command();
        assert!(!args.is_empty(), "{} runs nothing", lane.name());
        assert!(
            lane.description()
                .contains(&format!("cargo {}", args.join(" "))),
            "{}: {:?}",
            lane.name(),
            lane.description()
        );
    }
}

#[test]
fn a_lanes_environment_shows_up_in_its_description() {
    assert_eq!(
        Lane::Doc.description(),
        "RUSTDOCFLAGS='-D warnings' cargo doc --workspace --no-deps"
    );
}

#[test]
fn lanes_without_an_environment_describe_just_the_command() {
    assert_eq!(Lane::Fmt.description(), "cargo fmt --all -- --check");
    assert_eq!(
        Lane::Clippy.description(),
        "cargo clippy --workspace --all-targets -- -D warnings"
    );
    assert_eq!(Lane::Build.command(), (vec!["build", "--workspace", "--all-targets"], None));
    assert_eq!(Lane::Doc.command().1, Some(("RUSTDOCFLAGS", "-D warnings")));
}

#[test]
fn lanes_are_cheapest_first_with_their_reserved_codes() {
    let names: Vec<&str> = Lane::ALL.iter().map(|l| l.name()).collect();
    assert_eq!(names, vec!["fmt", "clippy", "build", "test", "doc"]);
    let codes: Vec<u8> = Lane::ALL.iter().map(|l| l.exit_code()).collect();
    assert_eq!(codes, vec![10, 11, 12, 13, 14]);
}

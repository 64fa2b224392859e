//! The lanes: what a verification sweep runs, and what each one costs.
//!
//! Lanes are data. Ordered cheapest-first, and [`Lane::ALL`] is that order: a
//! one-second `fmt` failure surfaces before a multi-minute build has been paid
//! for. Selection always walks `ALL` and filters, so no combination of flags
//! can reorder lanes or run one twice.

use vstd::prelude::*;

use crate::text::{joined, push_joined, same_text, texts};

verus! {

/// Reserved for "you invoked me wrong", kept clear of every lane code so a
/// caller can always tell that apart from "a check failed".
pub const EXIT_USAGE: u8 = 2;

/// One check in a verification sweep.
#[derive(Debug, Clone, Copy, PartialEq, Eq, Hash, Structural)]
pub enum Lane {
    /// `cargo fmt --all -- --check`
    Fmt,
    /// `cargo clippy --workspace --all-targets -- -D warnings`
    Clippy,
    /// `cargo build --workspace --all-targets`
    Build,
    /// `cargo test --workspace`
    Test,
    /// `cargo doc --workspace --no-deps`, with warnings denied.
    Doc,
}

/// Every lane, cheapest first.
pub open spec fn all_lanes() -> Seq<Lane> {
    seq![Lane::Fmt, Lane::Clippy, Lane::Build, Lane::Test, Lane::Doc]
}

/// A lane's name, as it appears on the command line and in logs.
pub open spec fn lane_name(lane: Lane) -> Seq<char> {
    match lane {
        Lane::Fmt => "fmt"@,
        Lane::Clippy => "clippy"@,
        Lane::Build => "build"@,
        Lane::Test => "test"@,
        Lane::Doc => "doc"@,
    }
}

/// The lane a name selects, if any.
pub open spec fn lane_named(name: Seq<char>) -> Option<Lane> {
    if name == lane_name(Lane::Fmt) {
        Some(Lane::Fmt)
    } else if name == lane_name(Lane::Clippy) {
        Some(Lane::Clippy)
    } else if name == lane_name(Lane::Build) {
        Some(Lane::Build)
    } else if name == lane_name(Lane::Test) {
        Some(Lane::Test)
    } else if name == lane_name(Lane::Doc) {
        Some(Lane::Doc)
    } else {
        None
    }
}

/// The exit code reserved for a lane's failure.
pub open spec fn lane_exit_code(lane: Lane) -> u8 {
    match lane {
        Lane::Fmt => 10,
        Lane::Clippy => 11,
        Lane::Build => 12,
        Lane::Test => 13,
        Lane::Doc => 14,
    }
}

/// The cargo arguments a lane runs.
pub open spec fn lane_args(lane: Lane) -> Seq<Seq<char>> {
    match lane {
        Lane::Fmt => seq!["fmt"@, "--all"@, "--"@, "--check"@],
        Lane::Clippy => seq![
            "clippy"@,
            "--workspace"@,
            "--all-targets"@,
            "--"@,
            "-D"@,
            "warnings"@,
        ],
        Lane::Build => seq!["build"@, "--workspace"@, "--all-targets"@],
        Lane::Test => seq!["test"@, "--workspace"@],
        Lane::Doc => seq!["doc"@, "--workspace"@, "--no-deps"@],
    }
}

/// The environment variable a lane needs, if any, as `(key, value)`.
pub open spec fn lane_env(lane: Lane) -> Option<(Seq<char>, Seq<char>)> {
    match lane {
        Lane::Doc => Some(("RUSTDOCFLAGS"@, "-D warnings"@)),
        _ => None,
    }
}

/// The one-line description of a lane: its environment, if any, then the
/// cargo command it runs.
pub open spec fn lane_description(lane: Lane) -> Seq<char> {
    let prefix = match lane_env(lane) {
        Some((key, value)) => key + "='"@ + value + "' "@,
        None => Seq::empty(),
    };
    prefix + "cargo "@ + joined(lane_args(lane), " "@)
}

impl Lane {
    /// Every lane, cheapest first.
    pub const ALL: [Lane; 5] = [Lane::Fmt, Lane::Clippy, Lane::Build, Lane::Test, Lane::Doc];

    /// The lane's name, as it appears on the command line and in logs.
    pub fn name(self) -> (name: &'static str)
        ensures
            name@ == lane_name(self),
    {
        match self {
            Lane::Fmt => "fmt",
            Lane::Clippy => "clippy",
            Lane::Build => "build",
            Lane::Test => "test",
            Lane::Doc => "doc",
        }
    }

    /// Parse a lane from its name.
    pub fn parse(name: &str) -> (lane: Option<Lane>)
        ensures
            lane == lane_named(name@),
    {
        if same_text(name, "fmt") {
            Some(Lane::Fmt)
        } else if same_text(name, "clippy") {
            Some(Lane::Clippy)
        } else if same_text(name, "build") {
            Some(Lane::Build)
        } else if same_text(name, "test") {
            Some(Lane::Test)
        } else if same_text(name, "doc") {
            Some(Lane::Doc)
        } else {
            None
        }
    }

    /// The process exit code reserved for this lane's failure.
    ///
    /// One code per lane, so a caller can tell "clippy is dirty" (11) from "the
    /// tests broke" (13) without parsing stdout.
    pub fn exit_code(self) -> (code: u8)
        ensures
            code == lane_exit_code(self),
    {
        match self {
            Lane::Fmt => 10,
            Lane::Clippy => 11,
            Lane::Build => 12,
            Lane::Test => 13,
            Lane::Doc => 14,
        }
    }

    /// The cargo arguments this lane runs, and any environment it needs.
    pub fn command(self) -> (command: (Vec<&'static str>, Option<(&'static str, &'static str)>))
        ensures
            texts(command.0@) == lane_args(self),
            match (command.1, lane_env(self)) {
                (Some((key, value)), Some((k, v))) => key@ == k && value@ == v,
                (None, None) => true,
                _ => false,
            },
    {
        let (args, env): (Vec<&'static str>, Option<(&'static str, &'static str)>) = match self {
            Lane::Fmt => (vec!["fmt", "--all", "--", "--check"], None),
            Lane::Clippy => (
                vec!["clippy", "--workspace", "--all-targets", "--", "-D", "warnings"],
                None,
            ),
            Lane::Build => (vec!["build", "--workspace", "--all-targets"], None),
            Lane::Test => (vec!["test", "--workspace"], None),
            // `cargo doc` has no `--` passthrough, so the flag goes through the
            // environment.
            Lane::Doc => (vec!["doc", "--workspace", "--no-deps"], Some(("RUSTDOCFLAGS", "-D warnings"))),
        };
        assert(texts(args@) =~= lane_args(self));
        (args, env)
    }

    /// One line for `--list` and the run header: the command this lane runs.
    ///
    /// Rendered from [`Lane::command`] rather than written out beside it, so
    /// the two cannot drift.
    pub fn description(self) -> (text: String)
        ensures
            text@ == lane_description(self),
    {
        let (args, env) = self.command();
        let mut text = String::new();
        match env {
            Some((key, value)) => {
                text.append(key);
                text.append("='");
                text.append(value);
                text.append("' ");
            },
            None => {},
        }
        text.append("cargo ");
        push_joined(&mut text, &args, " ");
        text
    }
}

/// The characters of each requested name.
pub open spec fn requested(only: Seq<String>) -> Seq<Seq<char>> {
    only.map_values(|s: String| s@)
}

/// The requested names that name no lane, in the order given.
pub open spec fn unknown_names(names: Seq<Seq<char>>) -> Seq<Seq<char>>
    decreases names.len(),
{
    if names.len() == 0 {
        Seq::empty()
    } else {
        let rest = unknown_names(names.drop_last());
        if lane_named(names.last()) is None {
            rest.push(names.last())
        } else {
            rest
        }
    }
}

/// Whether some requested name selects `lane`.
pub open spec fn is_requested(names: Seq<Seq<char>>, lane: Lane) -> bool {
    exists|i: int| 0 <= i < names.len() && lane_named(#[trigger] names[i]) == Some(lane)
}

/// The first `n` lanes of [`all_lanes`] that some requested name selects, in
/// canonical order.
pub open spec fn requested_lanes(names: Seq<Seq<char>>, n: nat) -> Seq<Lane>
    decreases n,
{
    if n == 0 {
        Seq::empty()
    } else {
        let rest = requested_lanes(names, (n - 1) as nat);
        let lane = all_lanes()[n - 1];
        if is_requested(names, lane) {
            rest.push(lane)
        } else {
            rest
        }
    }
}

/// The names of every lane, cheapest first.
pub open spec fn all_lane_names() -> Seq<Seq<char>> {
    all_lanes().map_values(|l: Lane| lane_name(l))
}

/// The message `--only` gets back when it names lanes that do not exist.
pub open spec fn unknown_lanes_message(names: Seq<Seq<char>>) -> Seq<char> {
    "unknown lane(s): "@ + joined(unknown_names(names), ", "@) + " (known: "@
        + joined(all_lane_names(), ", "@) + ")"@
}

/// What `--only` selects: every lane when nothing is named; an error naming
/// the unknown ones when any name is not a lane; otherwise the named lanes in
/// canonical order, each once.
pub open spec fn selection(names: Seq<Seq<char>>) -> Result<Seq<Lane>, Seq<char>> {
    if names.len() == 0 {
        Ok(all_lanes())
    } else if unknown_names(names).len() > 0 {
        Err(unknown_lanes_message(names))
    } else {
        Ok(requested_lanes(names, 5))
    }
}

/// Whether `lanes` holds `lane`.
fn holds_lane(lanes: &Vec<Lane>, lane: Lane) -> (found: bool)
    ensures
        found == lanes@.contains(lane),
{
    let mut i: usize = 0;
    while i < lanes.len()
        invariant
            i <= lanes@.len(),
            forall|k: int| 0 <= k < i ==> lanes@[k] != lane,
        decreases lanes@.len() - i,
    {
        if lanes[i] == lane {
            assert(lanes@[i as int] == lane);
            return true;
        }
        i = i + 1;
    }
    false
}

/// Which lanes `--only` selects, or every lane when it is empty.
///
/// Always returned in canonical order: this filters [`Lane::ALL`], so
/// `--only test --only fmt` still runs fmt first and neither flag order nor a
/// repeat can change that. A list naming any unknown lane fails as a whole
/// rather than running the known half.
pub fn select_lanes(only: &[String]) -> (selected: Result<Vec<Lane>, String>)
    ensures
        match (selected, selection(requested(only@))) {
            (Ok(lanes), Ok(expected)) => lanes@ == expected,
            (Err(message), Err(expected)) => message@ == expected,
            _ => false,
        },
{
    let ghost names = requested(only@);
    if only.len() == 0 {
        let all: Vec<Lane> = vec![Lane::Fmt, Lane::Clippy, Lane::Build, Lane::Test, Lane::Doc];
        assert(all@ =~= all_lanes());
        return Ok(all);
    }
    let mut unknown: Vec<&str> = Vec::new();
    let mut named: Vec<Lane> = Vec::new();
    let mut i: usize = 0;
    while i < only.len()
        invariant
            i <= only@.len(),
            names == requested(only@),
            texts(unknown@) == unknown_names(names.subrange(0, i as int)),
            forall|l: Lane| named@.contains(l) <==> is_requested(names.subrange(0, i as int), l),
        decreases only@.len() - i,
    {
        let name = only[i].as_str();
        let parsed = Lane::parse(name);
        let ghost before = names.subrange(0, i as int);
        let ghost after = names.subrange(0, i + 1);
        let ghost named_before = named@;
        proof {
            assert(after.drop_last() =~= before);
            assert(after.last() == name@);
            assert(after[i as int] == name@);
            assert forall|k: int| 0 <= k < i implies after[k] == before[k] by {}
        }
        match parsed {
            Some(lane) => {
                named.push(lane);
                proof {
                    assert(texts(unknown@) =~= unknown_names(after));
                    assert forall|l: Lane| named@.contains(l) <==> is_requested(after, l) by {
                        if named@.contains(l) {
                            if l != lane {
                                let k = choose|k: int| 0 <= k < named@.len() && named@[k] == l;
                                assert(named_before[k] == l);
                                assert(named_before.contains(l));
                                let m = choose|m: int| 0 <= m < before.len() && lane_named(#[trigger] before[m]) == Some(l);
                                assert(after[m] == before[m]);
                            } else {
                                assert(lane_named(after[i as int]) == Some(l));
                            }
                        }
                        if is_requested(after, l) {
                            let k = choose|k: int| 0 <= k < after.len() && lane_named(#[trigger] after[k]) == Some(l);
                            if k < i {
                                assert(before[k] == after[k]);
                                assert(named_before.contains(l));
                                let m = choose|m: int| 0 <= m < named_before.len() && named_before[m] == l;
                                assert(named@[m] == l);
                            } else {
                                assert(named@[named@.len() - 1] == l);
                            }
                        }
                    }
                }
            },
            None => {
                unknown.push(name);
                proof {
                    assert(texts(unknown@) =~= unknown_names(after));
                    assert forall|l: Lane| named@.contains(l) <==> is_requested(after, l) by {
                        if named@.contains(l) {
                            let m = choose|m: int| 0 <= m < before.len() && lane_named(#[trigger] before[m]) == Some(l);
                            assert(after[m] == before[m]);
                        }
                        if is_requested(after, l) {
                            let k = choose|k: int| 0 <= k < after.len() && lane_named(#[trigger] after[k]) == Some(l);
                            assert(k != i);
                            assert(before[k] == after[k]);
                        }
                    }
                }
            },
        }
        i = i + 1;
    }
    assert(names.subrange(0, only@.len() as int) =~= names);
    if unknown.len() > 0 {
        let known: Vec<&str> = vec![
            Lane::Fmt.name(),
            Lane::Clippy.name(),
            Lane::Build.name(),
            Lane::Test.name(),
            Lane::Doc.name(),
        ];
        assert(texts(known@) =~= all_lane_names());
        let mut message = String::new();
        message.append("unknown lane(s): ");
        push_joined(&mut message, &unknown, ", ");
        message.append(" (known: ");
        push_joined(&mut message, &known, ", ");
        message.append(")");
        return Err(message);
    }
    let mut lanes: Vec<Lane> = Vec::new();
    let mut j: usize = 0;
    while j < 5
        invariant
            j <= 5,
            forall|l: Lane| named@.contains(l) <==> is_requested(names, l),
            lanes@ == requested_lanes(names, j as nat),
        decreases 5 - j,
    {
        let lane = Lane::ALL[j];
        assert(lane == all_lanes()[j as int]);
        if holds_lane(&named, lane) {
            lanes.push(lane);
        }
        j = j + 1;
    }
    Ok(lanes)
}

/// Where a lane stands in canonical order.
pub open spec fn lane_position(lane: Lane) -> int {
    match lane {
        Lane::Fmt => 0,
        Lane::Clippy => 1,
        Lane::Build => 2,
        Lane::Test => 3,
        Lane::Doc => 4,
    }
}

/// The first `n` canonical lanes filtered by the request come out in
/// canonical order, each once, and hold exactly the requested ones.
proof fn lemma_requested_lanes_are_canonical(names: Seq<Seq<char>>, n: nat)
    requires
        n <= 5,
    ensures
        forall|i: int, j: int|
            0 <= i < j < requested_lanes(names, n).len() ==> lane_position(
                #[trigger] requested_lanes(names, n)[i],
            ) < lane_position(#[trigger] requested_lanes(names, n)[j]),
        forall|l: Lane|
            requested_lanes(names, n).contains(l) <==> (is_requested(names, l) && lane_position(l) < n),
        forall|i: int|
            0 <= i < requested_lanes(names, n).len() ==> lane_position(#[trigger] requested_lanes(names, n)[i]) < n,
    decreases n,
{
    if n > 0 {
        lemma_requested_lanes_are_canonical(names, (n - 1) as nat);
        let rest = requested_lanes(names, (n - 1) as nat);
        let lane = all_lanes()[n - 1];
        assert(lane_position(lane) == n - 1);
        assert forall|l: Lane| requested_lanes(names, n).contains(l) <==> (is_requested(names, l) && lane_position(l) < n) by {
            if requested_lanes(names, n).contains(l) {
                let k = choose|k: int| 0 <= k < requested_lanes(names, n).len() && requested_lanes(names, n)[k] == l;
                if k < rest.len() {
                    assert(rest[k] == l);
                    assert(rest.contains(l));
                }
            }
            if is_requested(names, l) && lane_position(l) < n {
                if lane_position(l) < n - 1 {
                    assert(rest.contains(l));
                    let k = choose|k: int| 0 <= k < rest.len() && rest[k] == l;
                    assert(requested_lanes(names, n)[k] == l);
                } else {
                    assert(l == lane);
                    assert(requested_lanes(names, n)[requested_lanes(names, n).len() - 1] == l);
                }
            }
        }
    }
}

/// What `--only` selects always comes out cheapest first, never runs a lane
/// twice, and runs exactly the lanes that were named; a list with any name
/// that is not a lane selects nothing.
pub proof fn lemma_selection_is_canonical(names: Seq<Seq<char>>)
    ensures
        selection(names) is Err <==> unknown_names(names).len() > 0,
        selection(names) matches Ok(lanes) ==> forall|i: int, j: int|
            0 <= i < j < lanes.len() ==> lane_position(#[trigger] lanes[i]) < lane_position(#[trigger] lanes[j]),
        selection(names) matches Ok(lanes) ==> forall|l: Lane|
            lanes.contains(l) <==> (names.len() == 0 || is_requested(names, l)),
{
    lemma_requested_lanes_are_canonical(names, 5);
    if names.len() == 0 {
        assert(unknown_names(names).len() == 0);
        assert forall|l: Lane| all_lanes().contains(l) by {
            assert(all_lanes()[lane_position(l)] == l);
        }
    }
}

/// Every lane runs the cargo subcommand it is named after; every lane but
/// `fmt` runs it across the whole workspace, and `fmt` formats every
/// package instead; clippy and build cover every target, and the lanes that
/// must fail on a warning — clippy by its `-D warnings`, doc through
/// `RUSTDOCFLAGS` — say so. Only the doc lane needs an environment.
pub proof fn lemma_lane_commands(lane: Lane)
    ensures
        lane_args(lane).len() >= 2,
        lane_args(lane)[0] == lane_name(lane),
        lane != Lane::Fmt ==> lane_args(lane)[1] == "--workspace"@,
        lane == Lane::Fmt ==> lane_args(lane).contains("--all"@) && lane_args(lane).contains("--check"@),
        (lane == Lane::Clippy || lane == Lane::Build) ==> lane_args(lane).contains("--all-targets"@),
        lane == Lane::Clippy ==> lane_args(lane).subrange(
            lane_args(lane).len() - 2,
            lane_args(lane).len() as int,
        ) == seq!["-D"@, "warnings"@],
        lane == Lane::Doc ==> lane_args(lane).contains("--no-deps"@)
            && lane_env(lane) == Some(("RUSTDOCFLAGS"@, "-D warnings"@)),
        lane != Lane::Doc ==> lane_env(lane) is None,
{
    match lane {
        Lane::Fmt => {
            assert(lane_args(lane)[1] == "--all"@);
            assert(lane_args(lane)[3] == "--check"@);
        },
        Lane::Clippy => {
            assert(lane_args(lane)[2] == "--all-targets"@);
            assert(lane_args(lane).subrange(4, 6) =~= seq!["-D"@, "warnings"@]);
        },
        Lane::Build => {
            assert(lane_args(lane)[2] == "--all-targets"@);
        },
        Lane::Doc => {
            assert(lane_args(lane)[2] == "--no-deps"@);
        },
        Lane::Test => {},
    }
}

/// The test lane runs the whole workspace's tests and nothing narrower.
pub proof fn lemma_test_lane_covers_the_workspace()
    ensures
        lane_args(Lane::Test) == seq!["test"@, "--workspace"@],
{
}

/// Every lane's name parses back to that lane, and no two lanes share a name.
pub proof fn lemma_lane_names_round_trip(lane: Lane)
    ensures
        lane_named(lane_name(lane)) == Some(lane),
{
    reveal_strlit("fmt");
    reveal_strlit("clippy");
    reveal_strlit("build");
    reveal_strlit("test");
    reveal_strlit("doc");
    assert("fmt"@.len() == 3 && "doc"@.len() == 3 && "test"@.len() == 4);
    assert("build"@.len() == 5 && "clippy"@.len() == 6);
    assert("fmt"@[0] != "doc"@[0]);
}

/// Every lane has its own exit code, and every code is clear of the usage
/// code and of success.
pub proof fn lemma_exit_codes_are_distinct_and_reserved(a: Lane, b: Lane)
    ensures
        lane_exit_code(a) >= 10,
        lane_exit_code(a) != EXIT_USAGE,
        lane_exit_code(a) == lane_exit_code(b) <==> a == b,
{
}

/// Every lane's description ends in the cargo command its arguments spell.
pub proof fn lemma_description_names_the_command(lane: Lane)
    ensures
        exists|prefix: Seq<char>|
            lane_description(lane) == prefix + "cargo "@ + joined(lane_args(lane), " "@),
{
    let prefix = match lane_env(lane) {
        Some((key, value)) => key + "='"@ + value + "' "@,
        None => Seq::empty(),
    };
    assert(lane_description(lane) == prefix + "cargo "@ + joined(lane_args(lane), " "@));
}

} // verus!

//! Running lanes: where logs go, what was recorded, and what the sweep exits
//! with.
//!
//! Spawning cargo, capturing its output and printing the table are the
//! frontend's; what is decided here is the bookkeeping those rest on.

use std::path::PathBuf;
use std::time::Duration;

use vstd::prelude::*;

use crate::lane::{Lane, lane_exit_code, lane_name};

verus! {

/// `std::path::PathBuf`, carried as an opaque value.
#[verifier::external_type_specification]
#[verifier::external_body]
pub struct ExPathBuf(PathBuf);

/// The path `base.join(tail)` returns.
pub uninterp spec fn path_joined(base: PathBuf, tail: Seq<char>) -> PathBuf;

/// `base` with `tail` appended as further components: a call of
/// `Path::join`, which depends on the two arguments alone.
///
/// What the joined path is, component by component, is not restated: a
/// `PathBuf` is opaque here.
#[verifier::external_body]
fn join_path(base: &PathBuf, tail: &str) -> (path: PathBuf)
    ensures
        path == path_joined(*base, tail@),
{
    base.join(tail)
}

/// How many lines of a failing lane's log are worth printing.
pub const FAIL_TAIL: usize = 40;

/// ANSI escapes for the summary output, or empty strings when colour is not
/// wanted, so a captured log carries no escapes at all.
#[derive(Debug, Clone, Copy)]
pub struct Style {
    /// Back to plain text.
    pub reset: &'static str,
    /// Bold.
    pub bold: &'static str,
    /// Dim.
    pub dim: &'static str,
    /// Red.
    pub red: &'static str,
    /// Green.
    pub green: &'static str,
}

impl Style {
    /// Colour codes when `colour` is wanted, empty strings otherwise.
    pub fn with_colour(colour: bool) -> (style: Style)
        ensures
            colour ==> style.reset@ == "\x1b[0m"@ && style.bold@ == "\x1b[1m"@
                && style.dim@ == "\x1b[2m"@ && style.red@ == "\x1b[31m"@ && style.green@ == "\x1b[32m"@,
            !colour ==> style.reset@ == ""@ && style.bold@ == ""@ && style.dim@ == ""@
                && style.red@ == ""@ && style.green@ == ""@,
    {
        if colour {
            Style { reset: "\x1b[0m", bold: "\x1b[1m", dim: "\x1b[2m", red: "\x1b[31m", green: "\x1b[32m" }
        } else {
            Style { reset: "", bold: "", dim: "", red: "", green: "" }
        }
    }
}

/// What became of one lane.
#[derive(Debug)]
pub struct Outcome {
    /// The lane that ran.
    pub lane: Lane,
    /// Whether it passed.
    pub passed: bool,
    /// How long it took.
    pub elapsed: Duration,
}

/// The exit code of the first failing outcome, if any failed.
pub open spec fn first_failure(outcomes: Seq<Outcome>) -> Option<u8>
    decreases outcomes.len(),
{
    if outcomes.len() == 0 {
        None
    } else if !outcomes[0].passed {
        Some(lane_exit_code(outcomes[0].lane))
    } else {
        first_failure(outcomes.drop_first())
    }
}

/// One for a failed outcome, none for a passed one.
pub open spec fn failed_count(outcome: Outcome) -> nat {
    if outcome.passed { 0 } else { 1 }
}

/// How many outcomes failed.
pub open spec fn failures(outcomes: Seq<Outcome>) -> nat
    decreases outcomes.len(),
{
    if outcomes.len() == 0 {
        0
    } else {
        failures(outcomes.drop_last()) + failed_count(outcomes.last())
    }
}

/// The name of the file a lane's output is captured to.
pub open spec fn log_file_name(lane: Lane) -> Seq<char> {
    lane_name(lane) + ".log"@
}

/// The widest lane name among the outcomes, or zero when there are none: the
/// column the summary table pads names to.
pub open spec fn widest_name(outcomes: Seq<Outcome>) -> nat
    decreases outcomes.len(),
{
    if outcomes.len() == 0 {
        0
    } else {
        let rest = widest_name(outcomes.drop_last());
        let here = lane_name(outcomes.last().lane).len();
        if here > rest { here } else { rest }
    }
}

/// Where the printed tail of a log with `line_count` lines starts: at most
/// the last [`FAIL_TAIL`] lines, the whole log when it is shorter.
pub fn tail_start(line_count: usize) -> (start: usize)
    ensures
        start == (if line_count > FAIL_TAIL { line_count - FAIL_TAIL } else { 0 }),
        start <= line_count,
        line_count - start <= FAIL_TAIL,
{
    line_count.saturating_sub(FAIL_TAIL)
}

/// The summary table's word for an outcome.
pub fn verdict(passed: bool) -> (label: &'static str)
    ensures
        passed ==> label@ == "PASS"@,
        !passed ==> label@ == "FAIL"@,
{
    if passed { "PASS" } else { "FAIL" }
}

/// Runs lanes and reports on them.
pub struct Runner {
    cargo: PathBuf,
    log_dir: PathBuf,
    style: Style,
    outcomes: Vec<Outcome>,
}

impl Runner {
    /// Every outcome recorded so far, in the order the lanes ran.
    pub closed spec fn spec_outcomes(&self) -> Seq<Outcome> {
        self.outcomes@
    }

    /// The cargo the runner invokes.
    pub closed spec fn spec_cargo(&self) -> PathBuf {
        self.cargo
    }

    /// The summary's styling.
    pub closed spec fn spec_style(&self) -> Style {
        self.style
    }

    /// The directory logs are captured to.
    pub closed spec fn spec_log_dir(&self) -> PathBuf {
        self.log_dir
    }

    /// A runner logging under `<workspace>/target/verify-logs`, invoking
    /// `cargo` — the cargo that invoked the sweep, so every lane stays on the
    /// toolchain that is running it.
    pub fn new(workspace_root: &PathBuf, cargo: PathBuf, style: Style) -> (runner: Runner)
        ensures
            runner.spec_outcomes().len() == 0,
            runner.spec_cargo() == cargo,
            runner.spec_style() == style,
            runner.spec_log_dir() == path_joined(*workspace_root, "target/verify-logs"@),
    {
        Runner { cargo, log_dir: join_path(workspace_root, "target/verify-logs"), style, outcomes: Vec::new() }
    }

    /// The cargo the runner invokes.
    pub fn cargo(&self) -> (cargo: &PathBuf)
        ensures
            *cargo == self.spec_cargo(),
    {
        &self.cargo
    }

    /// The directory logs are captured to.
    pub fn log_dir(&self) -> (dir: &PathBuf)
        ensures
            *dir == self.spec_log_dir(),
    {
        &self.log_dir
    }

    /// The summary's styling.
    pub fn style(&self) -> (style: Style)
        ensures
            style == self.spec_style(),
    {
        self.style
    }

    /// The file a lane's output is captured to: the lane's name, with a `.log`
    /// extension, in the log directory.
    pub fn log_file(lane: Lane) -> (name: String)
        ensures
            name@ == log_file_name(lane),
    {
        let mut name = String::new();
        name.append(lane.name());
        name.append(".log");
        name
    }

    /// Where a lane's output is captured: its log file, in the log
    /// directory.
    pub fn log_path(&self, lane: Lane) -> (path: PathBuf)
        ensures
            path == path_joined(self.spec_log_dir(), log_file_name(lane)),
    {
        let name = Runner::log_file(lane);
        join_path(&self.log_dir, name.as_str())
    }

    /// Record what became of a lane.
    pub fn record(&mut self, outcome: Outcome)
        ensures
            final(self).spec_outcomes() == old(self).spec_outcomes().push(outcome),
            final(self).spec_cargo() == old(self).spec_cargo(),
            final(self).spec_style() == old(self).spec_style(),
            final(self).spec_log_dir() == old(self).spec_log_dir(),
    {
        self.outcomes.push(outcome);
    }

    /// Every outcome recorded so far, in the order the lanes ran.
    pub fn outcomes(&self) -> (outcomes: &[Outcome])
        ensures
            outcomes@ == self.spec_outcomes(),
    {
        self.outcomes.as_slice()
    }

    /// The width of the summary's name column: the longest recorded lane
    /// name, zero before anything ran.
    pub fn name_width(&self) -> (width: usize)
        ensures
            width == widest_name(self.spec_outcomes()),
    {
        let mut width: usize = 0;
        let mut i: usize = 0;
        while i < self.outcomes.len()
            invariant
                i <= self.outcomes@.len(),
                width == widest_name(self.outcomes@.subrange(0, i as int)),
                width <= 6,
            decreases self.outcomes@.len() - i,
        {
            assert(self.outcomes@.subrange(0, i + 1).drop_last() =~= self.outcomes@.subrange(0, i as int));
            let here = self.outcomes[i].lane.name().unicode_len();
            proof {
                reveal_strlit("fmt");
                reveal_strlit("clippy");
                reveal_strlit("build");
                reveal_strlit("test");
                reveal_strlit("doc");
            }
            if here > width {
                width = here;
            }
            i = i + 1;
        }
        assert(self.outcomes@.subrange(0, self.outcomes@.len() as int) =~= self.outcomes@);
        width
    }

    /// How many recorded lanes failed.
    pub fn failed(&self) -> (count: usize)
        ensures
            count == failures(self.spec_outcomes()),
    {
        let mut count: usize = 0;
        let mut i: usize = 0;
        while i < self.outcomes.len()
            invariant
                i <= self.outcomes@.len(),
                count == failures(self.outcomes@.subrange(0, i as int)),
                count <= i,
            decreases self.outcomes@.len() - i,
        {
            assert(self.outcomes@.subrange(0, i + 1).drop_last() =~= self.outcomes@.subrange(0, i as int));
            if !self.outcomes[i].passed {
                count = count + 1;
            }
            i = i + 1;
        }
        assert(self.outcomes@.subrange(0, self.outcomes@.len() as int) =~= self.outcomes@);
        count
    }

    /// The process exit code for the sweep so far: the **first** failing
    /// lane's, so a sweep that breaks in two places still reports the
    /// cheapest thing to fix; zero when every lane passed.
    pub fn exit_code(&self) -> (code: u8)
        ensures
            code == (match first_failure(self.spec_outcomes()) {
                Some(c) => c,
                None => 0,
            }),
    {
        let mut i: usize = 0;
        assert(self.outcomes@.subrange(0, self.outcomes@.len() as int) =~= self.outcomes@);
        while i < self.outcomes.len()
            invariant
                i <= self.outcomes@.len(),
                first_failure(self.outcomes@) == first_failure(self.outcomes@.subrange(i as int, self.outcomes@.len() as int)),
            decreases self.outcomes@.len() - i,
        {
            let ghost rest = self.outcomes@.subrange(i as int, self.outcomes@.len() as int);
            if !self.outcomes[i].passed {
                assert(rest[0] == self.outcomes@[i as int]);
                return self.outcomes[i].lane.exit_code();
            }
            assert(rest.drop_first() =~= self.outcomes@.subrange(i + 1, self.outcomes@.len() as int));
            i = i + 1;
        }
        0
    }
}

/// A sweep exits zero exactly when no lane failed, and otherwise with a code
/// reserved for a lane, never the usage code.
pub proof fn lemma_exit_code_is_zero_exactly_when_all_passed(outcomes: Seq<Outcome>)
    ensures
        first_failure(outcomes) is None <==> failures(outcomes) == 0,
        first_failure(outcomes) matches Some(c) ==> c >= 10,
    decreases outcomes.len(),
{
    if outcomes.len() > 0 {
        let rest = outcomes.drop_first();
        lemma_exit_code_is_zero_exactly_when_all_passed(rest);
        lemma_failures_split_first(outcomes);
    }
}

/// Failures counted from the back agree with failures counted from the front.
proof fn lemma_failures_split_first(outcomes: Seq<Outcome>)
    requires
        outcomes.len() > 0,
    ensures
        failures(outcomes) == failures(outcomes.drop_first()) + failed_count(outcomes[0]),
    decreases outcomes.len(),
{
    let init = outcomes.drop_last();
    let tail = outcomes.drop_first();
    if outcomes.len() > 1 {
        // Peel the last outcome off both ends: the front of what is left
        // splits by induction, and the tail loses the same last outcome.
        lemma_failures_split_first(init);
        assert(init.drop_first() =~= tail.drop_last());
        assert(failures(tail) == failures(tail.drop_last()) + failed_count(tail.last()));
    } else {
        assert(failures(tail) == 0 && failures(init) == 0);
        assert(outcomes.last() == outcomes[0]);
    }
}

} // verus!

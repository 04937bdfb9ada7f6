//! The order of one run, from the first step to the exit status.
//!
//! The caller performs each step and reports how it went; the functions here
//! say which step comes next.

use vstd::prelude::*;
use crate::prompt::{OutcomeView, PromptOutcome};

verus! {

/// The exit status of a run that was completed, or cancelled at the prompt.
pub const EXIT_OK: i32 = 0;

/// The exit status of a run that met a fatal error.
pub const EXIT_FAILURE: i32 = 1;

/// What the program does next.
#[derive(Clone, Copy, Debug, PartialEq, Eq, Structural)]
pub enum Step {
    /// Make sure that the program's own directory exists.
    PrepareDirectory,
    /// Load the settings, creating the default document where none exists.
    LoadConfig,
    /// Open the program's log, on the terminal and in its file.
    StartLogging,
    /// Start the window toolkit.
    StartGui,
    /// Choose the font of the windows.
    SetFont,
    /// Show the username prompt.
    Prompt,
    /// Start the application and wait until it ends, with a clock reading
    /// before and one after.
    Launch,
    /// Append the run to the run log.
    Append,
    /// End the program with this status.
    Exit { status: i32 },
}

impl Step {
    /// The line that the program's log gets where this step fails; the cause
    /// may follow it. The exit has none.
    pub open spec fn spec_failure_message(self) -> Seq<char> {
        match self {
            Step::PrepareDirectory => "Error creating default configuration"@,
            Step::LoadConfig => "Failed to load configuration"@,
            Step::StartLogging => "Failed to open log file"@,
            Step::StartGui => "Unable to initalize GUI window."@,
            Step::SetFont => "Unable to set font"@,
            Step::Prompt => "Failed to build UI"@,
            Step::Launch => "Failed to spawn subprocess."@,
            Step::Append => "Failed to write result to CSV."@,
            Step::Exit { .. } => ""@,
        }
    }

    /// The line that the program's log gets where this step fails.
    pub fn failure_message(&self) -> (r: &'static str)
        ensures
            r@ == self.spec_failure_message(),
    {
        match self {
            Step::PrepareDirectory => "Error creating default configuration",
            Step::LoadConfig => "Failed to load configuration",
            Step::StartLogging => "Failed to open log file",
            Step::StartGui => "Unable to initalize GUI window.",
            Step::SetFont => "Unable to set font",
            Step::Prompt => "Failed to build UI",
            Step::Launch => "Failed to spawn subprocess.",
            Step::Append => "Failed to write result to CSV.",
            Step::Exit { .. } => "",
        }
    }
}

/// How a step went.
#[derive(Clone, Copy, Debug, PartialEq, Eq, Structural)]
pub enum Report {
    /// It did what it was meant to do.
    Succeeded,
    /// It met an error.
    Failed,
    /// The prompt was cancelled.
    Cancelled,
    /// The prompt was confirmed with an empty field.
    Empty,
}

/// The first step of every run.
pub open spec fn spec_first_step() -> Step {
    Step::PrepareDirectory
}

/// The step that follows `step` where it succeeded.
pub open spec fn spec_successor(step: Step) -> Step {
    match step {
        Step::PrepareDirectory => Step::LoadConfig,
        Step::LoadConfig => Step::StartLogging,
        Step::StartLogging => Step::StartGui,
        Step::StartGui => Step::SetFont,
        Step::SetFont => Step::Prompt,
        Step::Prompt => Step::Launch,
        Step::Launch => Step::Append,
        Step::Append => Step::Exit { status: EXIT_OK },
        Step::Exit { status } => Step::Exit { status },
    }
}

/// The step that follows `step` after `report`. An error ends the run with
/// status 1 whatever the step. A cancelled prompt ends it with status 0, and
/// an empty one is shown again; reported of any other step, the two count as
/// errors. After the exit nothing changes.
pub open spec fn spec_next(step: Step, report: Report) -> Step {
    match step {
        Step::Exit { status } => Step::Exit { status },
        Step::Prompt => match report {
            Report::Succeeded => Step::Launch,
            Report::Failed => Step::Exit { status: EXIT_FAILURE },
            Report::Cancelled => Step::Exit { status: EXIT_OK },
            Report::Empty => Step::Prompt,
        },
        _ => match report {
            Report::Succeeded => spec_successor(step),
            _ => Step::Exit { status: EXIT_FAILURE },
        },
    }
}

/// The step that a run has reached after the given reports, one for each
/// step that it performed.
pub open spec fn spec_run(reports: Seq<Report>) -> Step
    decreases reports.len(),
{
    if reports.len() == 0 {
        spec_first_step()
    } else {
        spec_next(spec_run(reports.drop_last()), reports.last())
    }
}

/// What the prompt's outcome reports of the step `Prompt`.
pub open spec fn spec_report_of(outcome: OutcomeView) -> Report {
    match outcome {
        OutcomeView::Cancelled => Report::Cancelled,
        OutcomeView::Redisplay => Report::Empty,
        OutcomeView::Accepted(_) => Report::Succeeded,
    }
}

/// The first step of every run.
pub fn first_step() -> (r: Step)
    ensures
        r == spec_first_step(),
{
    Step::PrepareDirectory
}

/// The step that follows `step` after `report`.
pub fn next_step(step: Step, report: Report) -> (r: Step)
    ensures
        r == spec_next(step, report),
{
    match step {
        Step::Exit { status } => Step::Exit { status },
        Step::Prompt => match report {
            Report::Succeeded => Step::Launch,
            Report::Failed => Step::Exit { status: EXIT_FAILURE },
            Report::Cancelled => Step::Exit { status: EXIT_OK },
            Report::Empty => Step::Prompt,
        },
        Step::PrepareDirectory => after(report, Step::LoadConfig),
        Step::LoadConfig => after(report, Step::StartLogging),
        Step::StartLogging => after(report, Step::StartGui),
        Step::StartGui => after(report, Step::SetFont),
        Step::SetFont => after(report, Step::Prompt),
        Step::Launch => after(report, Step::Append),
        Step::Append => after(report, Step::Exit { status: EXIT_OK }),
    }
}

fn after(report: Report, successor: Step) -> (r: Step)
    ensures
        r == (match report {
            Report::Succeeded => successor,
            _ => Step::Exit { status: EXIT_FAILURE },
        }),
{
    match report {
        Report::Succeeded => successor,
        _ => Step::Exit { status: EXIT_FAILURE },
    }
}

/// What the prompt's outcome reports of the step `Prompt`.
pub fn report_of(outcome: &PromptOutcome) -> (r: Report)
    ensures
        r == spec_report_of(outcome@),
{
    match outcome {
        PromptOutcome::Cancelled => Report::Cancelled,
        PromptOutcome::Redisplay => Report::Empty,
        PromptOutcome::Accepted(_) => Report::Succeeded,
    }
}

/// The step that a run has reached after the given reports.
pub fn run(reports: &Vec<Report>) -> (r: Step)
    ensures
        r == spec_run(reports@),
{
    let mut step = first_step();
    let mut i: usize = 0;
    assert(reports@.take(0) =~= Seq::<Report>::empty());
    while i < reports.len()
        invariant
            i <= reports.len(),
            step == spec_run(reports@.take(i as int)),
        decreases reports.len() - i,
    {
        assert(reports@.take(i + 1).drop_last() =~= reports@.take(i as int));
        step = next_step(step, reports[i]);
        i = i + 1;
    }
    assert(reports@.take(i as int) =~= reports@);
    step
}

/// Whether the step appends to the run log.
pub open spec fn appends(step: Step) -> bool {
    step == Step::Append
}

/// The number of steps among the first `n` of a run at which the run log is
/// appended to.
pub open spec fn appends_within(reports: Seq<Report>, n: nat) -> nat
    decreases n,
{
    if n == 0 {
        0
    } else {
        let before = appends_within(reports, (n - 1) as nat);
        if appends(spec_run(reports.take(n as int))) {
            before + 1
        } else {
            before
        }
    }
}

/// A run ends with status 0 or 1, never with another.
pub proof fn exit_status_is_zero_or_one(reports: Seq<Report>)
    ensures
        spec_run(reports) matches Step::Exit { status } ==> status == EXIT_OK || status
            == EXIT_FAILURE,
    decreases reports.len(),
{
    if reports.len() > 0 {
        exit_status_is_zero_or_one(reports.drop_last());
    }
}

/// Once a run has ended, further reports change nothing.
pub proof fn exit_is_final(reports: Seq<Report>, more: Seq<Report>)
    requires
        spec_run(reports) is Exit,
    ensures
        spec_run(reports + more) == spec_run(reports),
    decreases more.len(),
{
    if more.len() == 0 {
        assert(reports + more =~= reports);
    } else {
        exit_is_final(reports, more.drop_last());
        assert((reports + more).drop_last() =~= reports + more.drop_last());
        assert((reports + more).last() == more.last());
    }
}

/// A step that fails ends the run with status 1.
pub proof fn failure_is_fatal(reports: Seq<Report>)
    requires
        !(spec_run(reports) is Exit),
    ensures
        spec_run(reports.push(Report::Failed)) == (Step::Exit { status: EXIT_FAILURE }),
{
    assert(reports.push(Report::Failed).drop_last() =~= reports);
}

/// The run log is appended to only after the application was started and
/// has ended; and that in turn only after the prompt gave a username.
pub proof fn append_follows_launch(reports: Seq<Report>)
    requires
        reports.len() > 0,
        appends(spec_run(reports)),
    ensures
        spec_run(reports.drop_last()) == Step::Launch,
        reports.last() == Report::Succeeded,
        reports.len() >= 2,
        spec_run(reports.drop_last().drop_last()) == Step::Prompt,
        reports.drop_last().last() == Report::Succeeded,
{
    let launch = reports.drop_last();
    assert(spec_run(launch) == Step::Launch);
    assert(launch.len() > 0);
}

/// A cancelled prompt ends the run with status 0, and a run that ends there
/// has appended nothing to the run log.
pub proof fn cancelled_prompt_exits_quietly(reports: Seq<Report>)
    requires
        spec_run(reports) == Step::Prompt,
    ensures
        spec_run(reports.push(Report::Cancelled)) == (Step::Exit { status: EXIT_OK }),
        appends_within(reports.push(Report::Cancelled), reports.len() + 1) == 0,
{
    let ended = reports.push(Report::Cancelled);
    assert(ended.drop_last() =~= reports);
    assert(ended.take(ended.len() as int) =~= ended);
    no_append_before_launch(ended, ended.len());
}

/// A run that ends because the application could not be started ends with
/// status 1 and has appended nothing to the run log.
pub proof fn failed_launch_appends_nothing(reports: Seq<Report>)
    requires
        spec_run(reports) == Step::Launch,
    ensures
        spec_run(reports.push(Report::Failed)) == (Step::Exit { status: EXIT_FAILURE }),
        appends_within(reports.push(Report::Failed), reports.len() + 1) == 0,
{
    let ended = reports.push(Report::Failed);
    assert(ended.drop_last() =~= reports);
    assert(ended.take(ended.len() as int) =~= ended);
    no_append_before_launch(ended, ended.len());
}

/// The rank of a step in the order of a run; the exit ranks last.
pub open spec fn rank(step: Step) -> nat {
    match step {
        Step::PrepareDirectory => 0,
        Step::LoadConfig => 1,
        Step::StartLogging => 2,
        Step::StartGui => 3,
        Step::SetFont => 4,
        Step::Prompt => 5,
        Step::Launch => 6,
        Step::Append => 7,
        Step::Exit { .. } => 8,
    }
}

/// A run never goes back to an earlier step.
pub proof fn steps_never_go_back(reports: Seq<Report>, n: nat)
    requires
        n <= reports.len(),
    ensures
        rank(spec_run(reports.take(n as int))) <= rank(spec_run(reports)),
    decreases reports.len() - n,
{
    if n == reports.len() {
        assert(reports.take(n as int) =~= reports);
    } else {
        steps_never_go_back(reports.drop_last(), n);
        assert(reports.drop_last().take(n as int) =~= reports.take(n as int));
    }
}

/// A run that has not passed the step `Append` by way of a success has
/// appended nothing within its first `n` steps.
proof fn no_append_before_launch(reports: Seq<Report>, n: nat)
    requires
        n <= reports.len(),
        reports.len() > 0,
        rank(spec_run(reports.drop_last())) <= 6,
        !appends(spec_run(reports)),
    ensures
        appends_within(reports, n) == 0,
    decreases n,
{
    if n > 0 {
        no_append_before_launch(reports, (n - 1) as nat);
        if n == reports.len() {
            assert(reports.take(n as int) =~= reports);
        } else {
            steps_never_go_back(reports.drop_last(), n);
            assert(reports.drop_last().take(n as int) =~= reports.take(n as int));
        }
    }
}

} // verus!

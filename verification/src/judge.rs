//! The judging rules: the verdict on one sample, the score of a whole run and
//! the engine that decides, event by event, what a run does next.

use vstd::prelude::*;
use vstd::string::StringExecFns;
use crate::error::HelperError;
use crate::samples::{SampleInfo, SampleInfoView};
use crate::strdiff::{actual_side, colored_diff, expected_side, StyledSpan};
use crate::text::{decimal, same_text, spec_decimal, spec_trim, trim};
use crate::workspace::{
    executable_name, spec_compile_arguments, spec_executable_name, spec_source_name, Workspace,
};

verus! {

/// How the run of the target on one sample ended.
#[derive(Debug, PartialEq, Eq)]
pub enum RunOutcome {
    /// The target ended within the time limit and wrote `output`.
    Completed { output: String },
    /// The target was still running when the time limit passed.
    TimedOut,
}

/// A `RunOutcome` with its text as a character sequence.
pub enum RunOutcomeView {
    Completed { output: Seq<char> },
    TimedOut,
}

impl View for RunOutcome {
    type V = RunOutcomeView;

    open spec fn view(&self) -> RunOutcomeView {
        match self {
            RunOutcome::Completed { output } => RunOutcomeView::Completed { output: output@ },
            RunOutcome::TimedOut => RunOutcomeView::TimedOut,
        }
    }
}

impl DeepView for RunOutcome {
    type V = RunOutcomeView;

    open spec fn deep_view(&self) -> RunOutcomeView {
        self@
    }
}

/// The outcome of judging one sample.
#[derive(Debug, PartialEq, Eq)]
pub enum Verdict {
    /// The output matched; `points` are awarded.
    Accepted { points: u32 },
    /// The output differed. Nothing is awarded. `expected` and `actual` are
    /// the two texts that were compared, `input` is the sample's input.
    WrongAnswer { expected: String, actual: String, input: String },
    /// The target ran out of time. Nothing is awarded.
    TimeLimitExceeded,
}

/// A `Verdict` with its texts as character sequences.
pub enum VerdictView {
    Accepted { points: u32 },
    WrongAnswer { expected: Seq<char>, actual: Seq<char>, input: Seq<char> },
    TimeLimitExceeded,
}

impl View for Verdict {
    type V = VerdictView;

    open spec fn view(&self) -> VerdictView {
        match self {
            Verdict::Accepted { points } => VerdictView::Accepted { points: *points },
            Verdict::WrongAnswer { expected, actual, input } => VerdictView::WrongAnswer {
                expected: expected@,
                actual: actual@,
                input: input@,
            },
            Verdict::TimeLimitExceeded => VerdictView::TimeLimitExceeded,
        }
    }
}

impl DeepView for Verdict {
    type V = VerdictView;

    open spec fn deep_view(&self) -> VerdictView {
        self@
    }
}

/// The result of a whole run: the verdict on each sample and the total.
#[derive(Debug, PartialEq, Eq)]
pub struct RunResult {
    pub verdicts: Vec<Verdict>,
    /// The sum of the points of the accepted samples.
    pub total: u128,
}

/// A `RunResult` with its verdicts as views.
pub struct RunResultView {
    pub verdicts: Seq<VerdictView>,
    pub total: nat,
}

impl View for RunResult {
    type V = RunResultView;

    open spec fn view(&self) -> RunResultView {
        RunResultView { verdicts: self.verdicts.deep_view(), total: self.total as nat }
    }
}

/// The verdict on `sample` given how its run ended.
///
/// A run that timed out exceeds the time limit whatever it wrote. Of a run
/// that completed, the output is trimmed of whitespace at both ends and
/// compared with the expected output as it stands: equal texts are accepted
/// for the sample's points, unequal ones are a wrong answer.
pub open spec fn spec_judge(sample: SampleInfoView, outcome: RunOutcomeView) -> VerdictView {
    match outcome {
        RunOutcomeView::TimedOut => VerdictView::TimeLimitExceeded,
        RunOutcomeView::Completed { output } => {
            if spec_trim(output) == sample.expected_out {
                VerdictView::Accepted { points: sample.points }
            } else {
                VerdictView::WrongAnswer {
                    expected: sample.expected_out,
                    actual: spec_trim(output),
                    input: sample.expected_in,
                }
            }
        },
    }
}

/// The points that a verdict adds to the total.
pub open spec fn spec_awarded(verdict: VerdictView) -> nat {
    match verdict {
        VerdictView::Accepted { points } => points as nat,
        _ => 0,
    }
}

/// The diff that goes with a verdict. A wrong answer has the expected text
/// rendered against the actual one; every other verdict has none.
pub open spec fn spec_diff(verdict: VerdictView) -> Option<(Seq<StyledSpan>, Seq<StyledSpan>)> {
    match verdict {
        VerdictView::WrongAnswer { expected, actual, input } => Some(
            (expected_side(expected, actual), actual_side(expected, actual)),
        ),
        _ => None,
    }
}

/// The two sides of a rendered diff as sequences.
pub open spec fn sides_view(sides: Option<(Vec<StyledSpan>, Vec<StyledSpan>)>) -> Option<
    (Seq<StyledSpan>, Seq<StyledSpan>),
> {
    match sides {
        Some(pair) => Some((pair.0@, pair.1@)),
        None => None,
    }
}

/// The line that reports the verdict on sample `index`.
pub open spec fn spec_report_line(index: nat, verdict: VerdictView) -> Seq<char> {
    match verdict {
        VerdictView::Accepted { points } => "Test #"@ + spec_decimal(index) + " passed: AC("@
            + spec_decimal(points as nat) + ")"@,
        VerdictView::WrongAnswer { .. } => "Test #"@ + spec_decimal(index) + " failed: WA(0)"@,
        VerdictView::TimeLimitExceeded => "Test #"@ + spec_decimal(index) + " failed: TLE(0)"@,
    }
}

/// The number of samples that can be judged: those with an outcome at hand.
pub open spec fn spec_judged(samples: nat, outcomes: nat) -> nat {
    if samples <= outcomes {
        samples
    } else {
        outcomes
    }
}

/// The verdicts of a run: sample `i` is judged by outcome `i`, in order, as
/// far as both reach.
pub open spec fn spec_verdicts(
    samples: Seq<SampleInfoView>,
    outcomes: Seq<RunOutcomeView>,
) -> Seq<VerdictView> {
    Seq::new(
        spec_judged(samples.len(), outcomes.len()),
        |i: int| spec_judge(samples[i], outcomes[i]),
    )
}

/// The sum of the points that `verdicts` award.
pub open spec fn spec_total(verdicts: Seq<VerdictView>) -> nat
    decreases verdicts.len(),
{
    if verdicts.len() == 0 {
        0
    } else {
        spec_total(verdicts.drop_last()) + spec_awarded(verdicts.last())
    }
}

/// What `judge_all` promises of its result.
pub open spec fn is_result_of(
    result: RunResultView,
    samples: Seq<SampleInfoView>,
    outcomes: Seq<RunOutcomeView>,
) -> bool {
    &&& result.verdicts == spec_verdicts(samples, outcomes)
    &&& result.total == spec_total(result.verdicts)
}

/// Judges one sample.
pub fn judge_sample(sample: &SampleInfo, outcome: &RunOutcome) -> (verdict: Verdict)
    ensures
        verdict@ == spec_judge(sample@, outcome@),
{
    match outcome {
        RunOutcome::TimedOut => Verdict::TimeLimitExceeded,
        RunOutcome::Completed { output } => {
            let actual = trim(output.as_str());
            if same_text(actual, sample.expected_out.as_str()) {
                Verdict::Accepted { points: sample.points }
            } else {
                Verdict::WrongAnswer {
                    expected: sample.expected_out.clone(),
                    actual: String::from_str(actual),
                    input: sample.expected_in.clone(),
                }
            }
        },
    }
}

impl Verdict {
    /// The points that this verdict adds to the total.
    pub fn awarded(&self) -> (points: u32)
        ensures
            points == spec_awarded(self@),
    {
        match self {
            Verdict::Accepted { points } => *points,
            _ => 0,
        }
    }

    /// The line that reports this verdict on sample `index`.
    pub fn report_line(&self, index: usize) -> (line: String)
        ensures
            line@ == spec_report_line(index as nat, self@),
    {
        let mut line = String::from_str("Test #");
        line.append(decimal(index).as_str());
        match self {
            Verdict::Accepted { points } => {
                line.append(" passed: AC(");
                line.append(decimal(*points as usize).as_str());
                line.append(")");
            },
            Verdict::WrongAnswer { .. } => {
                line.append(" failed: WA(0)");
            },
            Verdict::TimeLimitExceeded => {
                line.append(" failed: TLE(0)");
            },
        }
        line
    }

    /// The diff that explains a wrong answer: the expected text rendered
    /// against the actual one. Other verdicts have none.
    pub fn diff(&self) -> (sides: Option<(Vec<StyledSpan>, Vec<StyledSpan>)>)
        ensures
            sides_view(sides) == spec_diff(self@),
    {
        match self {
            Verdict::WrongAnswer { expected, actual, input } => Some(
                colored_diff(expected.as_str(), actual.as_str()),
            ),
            _ => None,
        }
    }
}

/// Judges every sample of a run, `outcomes[i]` being how the target's run on
/// `samples[i]` ended, and adds up the points.
pub fn judge_all(samples: &Vec<SampleInfo>, outcomes: &Vec<RunOutcome>) -> (result: RunResult)
    ensures
        result.verdicts.deep_view() == spec_verdicts(samples.deep_view(), outcomes.deep_view()),
        result.total == spec_total(result.verdicts.deep_view()),
{
    let count = if samples.len() <= outcomes.len() { samples.len() } else { outcomes.len() };
    let mut verdicts: Vec<Verdict> = Vec::new();
    let mut total: u128 = 0;
    let mut i: usize = 0;
    let ghost all = spec_verdicts(samples.deep_view(), outcomes.deep_view());
    while i < count
        invariant
            i <= count,
            count == spec_judged(samples.len() as nat, outcomes.len() as nat),
            all == spec_verdicts(samples.deep_view(), outcomes.deep_view()),
            verdicts.deep_view() == all.take(i as int),
            total == spec_total(all.take(i as int)),
        decreases count - i,
    {
        let verdict = judge_sample(&samples[i], &outcomes[i]);
        proof {
            lemma_total_bounded(all.take(i as int));
            assert(all.take(i + 1).drop_last() == all.take(i as int));
        }
        total = total + verdict.awarded() as u128;
        verdicts.push(verdict);
        i += 1;
    }
    RunResult { verdicts, total }
}

/// The stages of a run.
#[derive(Clone, Copy, Debug, PartialEq, Eq, Structural)]
pub enum JudgePhase {
    /// The compiler has been asked to build the target.
    Compiling,
    /// The target is running on the sample at the engine's index.
    Iterating,
    /// The run is over.
    Done,
}

/// What the engine learns from outside.
#[derive(Debug, PartialEq, Eq)]
pub enum JudgeEvent {
    /// The compiler was launched and has ended, whatever its exit status.
    CompilerLaunched,
    /// The compiler could not be launched.
    CompilerFailed,
    /// The target's run on the current sample ended as given.
    SampleRan { outcome: RunOutcome },
}

/// A `JudgeEvent` with its texts as character sequences.
pub enum JudgeEventView {
    CompilerLaunched,
    CompilerFailed,
    SampleRan { outcome: RunOutcomeView },
}

impl View for JudgeEvent {
    type V = JudgeEventView;

    open spec fn view(&self) -> JudgeEventView {
        match self {
            JudgeEvent::CompilerLaunched => JudgeEventView::CompilerLaunched,
            JudgeEvent::CompilerFailed => JudgeEventView::CompilerFailed,
            JudgeEvent::SampleRan { outcome } => JudgeEventView::SampleRan { outcome: outcome@ },
        }
    }
}

/// What the engine asks its driver to do next.
#[derive(Debug, PartialEq, Eq)]
pub enum JudgeAction {
    /// Remove `stale_binary` if it exists, then call `program` with
    /// `arguments` and report whether it could be launched.
    Compile { stale_binary: String, program: String, arguments: Vec<String> },
    /// Overwrite `scratch_file` with `input`, run `program` with that file as
    /// its standard input for at most `timeout_ms` milliseconds, kill it if it
    /// is still running then, and report the outcome.
    RunSample { index: usize, program: String, scratch_file: String, input: String, timeout_ms: u32 },
    /// Report `total` and remove `program` and `scratch_file`.
    Finish { total: u128, program: String, scratch_file: String },
    /// Give up for the reason given: the compiler could not be launched and
    /// no sample was run.
    Abort { error: HelperError },
    /// The event does not belong to the engine's phase; nothing has changed.
    Rejected,
}

/// A `JudgeAction` with its texts as character sequences.
pub enum JudgeActionView {
    Compile { stale_binary: Seq<char>, program: Seq<char>, arguments: Seq<Seq<char>> },
    RunSample {
        index: nat,
        program: Seq<char>,
        scratch_file: Seq<char>,
        input: Seq<char>,
        timeout_ms: u32,
    },
    Finish { total: nat, program: Seq<char>, scratch_file: Seq<char> },
    Abort { error: HelperError },
    Rejected,
}

impl View for JudgeAction {
    type V = JudgeActionView;

    open spec fn view(&self) -> JudgeActionView {
        match self {
            JudgeAction::Compile { stale_binary, program, arguments } => JudgeActionView::Compile {
                stale_binary: stale_binary@,
                program: program@,
                arguments: arguments.deep_view(),
            },
            JudgeAction::RunSample { index, program, scratch_file, input, timeout_ms } =>
                JudgeActionView::RunSample {
                    index: *index as nat,
                    program: program@,
                    scratch_file: scratch_file@,
                    input: input@,
                    timeout_ms: *timeout_ms,
                },
            JudgeAction::Finish { total, program, scratch_file } => JudgeActionView::Finish {
                total: *total as nat,
                program: program@,
                scratch_file: scratch_file@,
            },
            JudgeAction::Abort { error } => JudgeActionView::Abort { error: *error },
            JudgeAction::Rejected => JudgeActionView::Rejected,
        }
    }
}

/// What one step of the engine yields: the verdict on the sample that was
/// just run, if one was, the diff that explains it where it is a wrong
/// answer, and the next action.
#[derive(Debug, PartialEq, Eq)]
pub struct JudgeStep {
    pub verdict: Option<Verdict>,
    pub diff: Option<(Vec<StyledSpan>, Vec<StyledSpan>)>,
    pub action: JudgeAction,
}

/// A `JudgeStep` with its parts as views.
pub struct JudgeStepView {
    pub verdict: Option<VerdictView>,
    pub diff: Option<(Seq<StyledSpan>, Seq<StyledSpan>)>,
    pub action: JudgeActionView,
}

impl View for JudgeStep {
    type V = JudgeStepView;

    open spec fn view(&self) -> JudgeStepView {
        JudgeStepView {
            verdict: self.verdict.deep_view(),
            diff: sides_view(self.diff),
            action: self.action@,
        }
    }
}

/// The state of a run as far as its decisions depend on it.
pub struct JudgeEngineView {
    pub phase: JudgePhase,
    /// The number of samples judged so far.
    pub index: nat,
    /// The points awarded so far.
    pub total: nat,
    pub samples: Seq<SampleInfoView>,
    pub executable: Seq<char>,
}

/// The engine of one run: it judges the samples strictly in order and keeps
/// the running total.
#[derive(Debug)]
pub struct JudgeEngine {
    phase: JudgePhase,
    index: usize,
    total: u128,
    samples: Vec<SampleInfo>,
    executable: String,
}

impl View for JudgeEngine {
    type V = JudgeEngineView;

    closed spec fn view(&self) -> JudgeEngineView {
        JudgeEngineView {
            phase: self.phase,
            index: self.index as nat,
            total: self.total as nat,
            samples: self.samples.deep_view(),
            executable: self.executable@,
        }
    }
}

/// The file through which each sample's input reaches the target. One file
/// serves the whole run and is overwritten for every sample.
pub open spec fn spec_scratch_file() -> Seq<char> {
    "tkejhowiuyoiuwoiub_in.bakabaka.in.txt"@
}

/// The command that runs the executable from the current directory.
pub open spec fn spec_run_program(executable: Seq<char>) -> Seq<char> {
    "./"@ + executable
}

/// The action that runs sample `index`, or ends the run after the last one.
pub open spec fn spec_next_action(
    samples: Seq<SampleInfoView>,
    executable: Seq<char>,
    index: nat,
    total: nat,
) -> JudgeActionView {
    if index < samples.len() {
        JudgeActionView::RunSample {
            index,
            program: spec_run_program(executable),
            scratch_file: spec_scratch_file(),
            input: samples[index as int].expected_in,
            timeout_ms: samples[index as int].timeout,
        }
    } else {
        JudgeActionView::Finish {
            total,
            program: spec_run_program(executable),
            scratch_file: spec_scratch_file(),
        }
    }
}

/// The phase in which the engine stands once `index` samples are judged.
pub open spec fn spec_phase_at(samples: nat, index: nat) -> JudgePhase {
    if index < samples {
        JudgePhase::Iterating
    } else {
        JudgePhase::Done
    }
}

/// The engine's transition: the state and the step that follow `event` in
/// state `engine`.
///
/// While compiling, a launched compiler starts the first sample, or ends the
/// run where there is none; a compiler that could not be launched ends the
/// run at once. While iterating, the outcome of the current sample is judged,
/// its points are added, a wrong answer is explained by its diff, and the
/// next sample is started, or the run ends after the last. Every other event
/// is rejected and changes nothing.
pub open spec fn spec_step(engine: JudgeEngineView, event: JudgeEventView) -> (
    JudgeEngineView,
    JudgeStepView,
) {
    match (engine.phase, event) {
        (JudgePhase::Compiling, JudgeEventView::CompilerLaunched) => (
            JudgeEngineView { phase: spec_phase_at(engine.samples.len(), 0), ..engine },
            JudgeStepView {
                verdict: None,
                diff: None,
                action: spec_next_action(engine.samples, engine.executable, 0, engine.total),
            },
        ),
        (JudgePhase::Compiling, JudgeEventView::CompilerFailed) => (
            JudgeEngineView { phase: JudgePhase::Done, ..engine },
            JudgeStepView {
                verdict: None,
                diff: None,
                action: JudgeActionView::Abort { error: HelperError::CompileError },
            },
        ),
        (JudgePhase::Iterating, JudgeEventView::SampleRan { outcome }) => {
            let verdict = spec_judge(engine.samples[engine.index as int], outcome);
            let total = engine.total + spec_awarded(verdict);
            let index = engine.index + 1;
            (
                JudgeEngineView {
                    phase: spec_phase_at(engine.samples.len(), index as nat),
                    index: index as nat,
                    total,
                    ..engine
                },
                JudgeStepView {
                    verdict: Some(verdict),
                    diff: spec_diff(verdict),
                    action: spec_next_action(
                        engine.samples,
                        engine.executable,
                        index as nat,
                        total,
                    ),
                },
            )
        },
        _ => (
            engine,
            JudgeStepView { verdict: None, diff: None, action: JudgeActionView::Rejected },
        ),
    }
}

/// The state that the engine reaches from `engine` when the outcomes of
/// the next samples come in, one after the other.
pub open spec fn spec_drive(engine: JudgeEngineView, outcomes: Seq<RunOutcomeView>) -> JudgeEngineView
    decreases outcomes.len(),
{
    if outcomes.len() == 0 {
        engine
    } else {
        spec_step(
            spec_drive(engine, outcomes.drop_last()),
            JudgeEventView::SampleRan { outcome: outcomes.last() },
        ).0
    }
}

/// The state of a run of `samples` right after its compiler was launched.
pub open spec fn spec_launched(samples: Seq<SampleInfoView>, executable: Seq<char>) -> JudgeEngineView {
    spec_step(
        JudgeEngineView { phase: JudgePhase::Compiling, index: 0, total: 0, samples, executable },
        JudgeEventView::CompilerLaunched,
    ).0
}

/// The name of the scratch file.
pub fn scratch_file() -> (name: String)
    ensures
        name@ == spec_scratch_file(),
{
    String::from_str("tkejhowiuyoiuwoiub_in.bakabaka.in.txt")
}

impl JudgeEngine {
    /// No more samples are judged than there are, the total is what that
    /// many samples can award at most, a sample is at hand while iterating,
    /// and nothing is judged before the compiler was launched.
    #[verifier::type_invariant]
    spec fn well_formed(&self) -> bool {
        &&& self.index <= self.samples.len()
        &&& self.total <= self.index * u32::MAX
        &&& self.phase == JudgePhase::Iterating ==> self.index < self.samples.len()
        &&& self.phase == JudgePhase::Compiling ==> self.index == 0 && self.total == 0
    }

    /// The action that follows from the engine's state: the run of the next
    /// sample, or the end of the run.
    fn next_action(&self) -> (action: JudgeAction)
        ensures
            action@ == spec_next_action(
                self.samples.deep_view(),
                self.executable@,
                self.index as nat,
                self.total as nat,
            ),
    {
        proof {
            use_type_invariant(self);
        }
        let mut program = String::from_str("./");
        program.append(self.executable.as_str());
        if self.index < self.samples.len() {
            let sample = &self.samples[self.index];
            JudgeAction::RunSample {
                index: self.index,
                program,
                scratch_file: scratch_file(),
                input: sample.expected_in.clone(),
                timeout_ms: sample.timeout,
            }
        } else {
            JudgeAction::Finish { total: self.total, program, scratch_file: scratch_file() }
        }
    }

    /// The stage in which the run stands.
    pub fn phase(&self) -> (phase: JudgePhase)
        ensures
            phase == self@.phase,
    {
        self.phase
    }

    /// The number of samples judged so far.
    pub fn judged(&self) -> (count: usize)
        ensures
            count == self@.index,
    {
        self.index
    }

    /// The points awarded so far.
    pub fn total(&self) -> (total: u128)
        ensures
            total == self@.total,
    {
        self.total
    }

    /// Takes `event` in and says what is to be done next.
    pub fn step(&mut self, event: &JudgeEvent) -> (step: JudgeStep)
        ensures
            (final(self)@, step@) == spec_step(old(self)@, event@),
    {
        proof {
            use_type_invariant(&*self);
        }
        match (self.phase, event) {
            (JudgePhase::Compiling, JudgeEvent::CompilerLaunched) => {
                if self.index < self.samples.len() {
                    self.phase = JudgePhase::Iterating;
                } else {
                    self.phase = JudgePhase::Done;
                }
                JudgeStep { verdict: None, diff: None, action: self.next_action() }
            },
            (JudgePhase::Compiling, JudgeEvent::CompilerFailed) => {
                self.phase = JudgePhase::Done;
                JudgeStep {
                    verdict: None,
                    diff: None,
                    action: JudgeAction::Abort { error: HelperError::CompileError },
                }
            },
            (JudgePhase::Iterating, JudgeEvent::SampleRan { outcome }) => {
                let verdict = judge_sample(&self.samples[self.index], outcome);
                let awarded = verdict.awarded();
                if self.index + 1 >= self.samples.len() {
                    self.phase = JudgePhase::Done;
                }
                self.index = self.index + 1;
                self.total = self.total + awarded as u128;
                let diff = verdict.diff();
                JudgeStep { verdict: Some(verdict), diff, action: self.next_action() }
            },
            _ => JudgeStep { verdict: None, diff: None, action: JudgeAction::Rejected },
        }
    }
}

impl Workspace {
    /// Starts a run of target `name` against `samples`: the engine, waiting
    /// for the compiler, and the compiler call that the driver is to make.
    pub fn test(&self, name: &str, samples: Vec<SampleInfo>) -> (start: (JudgeEngine, JudgeAction))
        ensures
            start.0@ == (JudgeEngineView {
                phase: JudgePhase::Compiling,
                index: 0,
                total: 0,
                samples: samples.deep_view(),
                executable: spec_executable_name(
                    spec_source_name(name@, self.cc_default_extension@),
                ),
            }),
            start.1@ == (JudgeActionView::Compile {
                stale_binary: start.0@.executable,
                program: self.cc_compiler@,
                arguments: spec_compile_arguments(
                    self.cc_flags@,
                    spec_source_name(name@, self.cc_default_extension@),
                    start.0@.executable,
                    false,
                ),
            }),
    {
        let source = self.source_name(name);
        let executable = executable_name(source.as_str());
        let command = self.compile_cpp(source.as_str(), executable.as_str(), false);
        let action = JudgeAction::Compile {
            stale_binary: executable.clone(),
            program: command.program,
            arguments: command.arguments,
        };
        let engine = JudgeEngine {
            phase: JudgePhase::Compiling,
            index: 0,
            total: 0,
            samples,
            executable,
        };
        (engine, action)
    }
}

/// A sample whose trimmed output equals the expected output is accepted and
/// adds exactly its points; every other sample adds nothing.
pub proof fn lemma_points_awarded(sample: SampleInfoView, outcome: RunOutcomeView)
    ensures
        (outcome matches RunOutcomeView::Completed { output } && spec_trim(output)
            == sample.expected_out) ==> spec_judge(sample, outcome) == (VerdictView::Accepted {
            points: sample.points,
        }) && spec_awarded(spec_judge(sample, outcome)) == sample.points,
        !(outcome matches RunOutcomeView::Completed { output } && spec_trim(output)
            == sample.expected_out) ==> !(spec_judge(sample, outcome) is Accepted) && spec_awarded(
            spec_judge(sample, outcome),
        ) == 0,
{
}

/// Each verdict adds to the total what it awards, and nothing else.
pub proof fn lemma_total_adds(verdicts: Seq<VerdictView>, verdict: VerdictView)
    ensures
        spec_total(verdicts.push(verdict)) == spec_total(verdicts) + spec_awarded(verdict),
{
    assert(verdicts.push(verdict).drop_last() =~= verdicts);
}

/// A run that timed out is never accepted and never a wrong answer.
pub proof fn lemma_timeout_exceeds_limit(sample: SampleInfoView)
    ensures
        spec_judge(sample, RunOutcomeView::TimedOut) == VerdictView::TimeLimitExceeded,
        spec_awarded(spec_judge(sample, RunOutcomeView::TimedOut)) == 0,
{
}

/// Judging is repeatable: two runs over the same samples in which the target
/// behaved alike end in the same verdicts and the same total.
pub proof fn lemma_rerun_agrees(
    samples: Seq<SampleInfoView>,
    outcomes: Seq<RunOutcomeView>,
    first: RunResultView,
    second: RunResultView,
)
    requires
        is_result_of(first, samples, outcomes),
        is_result_of(second, samples, outcomes),
    ensures
        first == second,
{
}

/// The total is bounded by the number of verdicts times the largest weight.
pub proof fn lemma_total_bounded(verdicts: Seq<VerdictView>)
    ensures
        spec_total(verdicts) <= verdicts.len() * u32::MAX,
    decreases verdicts.len(),
{
    if verdicts.len() > 0 {
        lemma_total_bounded(verdicts.drop_last());
    }
}

/// After the outcomes of the first `k` samples the engine has judged `k`
/// samples and holds the total of their verdicts.
pub proof fn lemma_drive_prefix(
    samples: Seq<SampleInfoView>,
    executable: Seq<char>,
    outcomes: Seq<RunOutcomeView>,
    k: nat,
)
    requires
        k <= outcomes.len() <= samples.len(),
    ensures
        spec_drive(spec_launched(samples, executable), outcomes.take(k as int)) == (JudgeEngineView {
            phase: spec_phase_at(samples.len(), k),
            index: k,
            total: spec_total(spec_verdicts(samples, outcomes).take(k as int)),
            samples,
            executable,
        }),
    decreases k,
{
    let verdicts = spec_verdicts(samples, outcomes);
    if k == 0 {
    } else {
        lemma_drive_prefix(samples, executable, outcomes, (k - 1) as nat);
        assert(outcomes.take(k as int).drop_last() =~= outcomes.take(k - 1));
        assert(verdicts.take(k as int).drop_last() =~= verdicts.take(k - 1));
    }
}

/// The scoring rule. A run that is driven through the outcomes of all its
/// samples is over, has judged every sample, and holds as its total the sum
/// of the points of the accepted samples.
pub proof fn lemma_engine_total(
    samples: Seq<SampleInfoView>,
    executable: Seq<char>,
    outcomes: Seq<RunOutcomeView>,
)
    requires
        outcomes.len() == samples.len(),
    ensures
        spec_drive(spec_launched(samples, executable), outcomes) == (JudgeEngineView {
            phase: JudgePhase::Done,
            index: samples.len(),
            total: spec_total(spec_verdicts(samples, outcomes)),
            samples,
            executable,
        }),
{
    lemma_drive_prefix(samples, executable, outcomes, outcomes.len());
    assert(outcomes.take(outcomes.len() as int) =~= outcomes);
    assert(spec_verdicts(samples, outcomes).take(outcomes.len() as int) =~= spec_verdicts(
        samples,
        outcomes,
    ));
}

} // verus!

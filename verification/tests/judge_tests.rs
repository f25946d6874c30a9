use oi_helper::error::HelperError;
use oi_helper::judge::{
    judge_all, judge_sample, scratch_file, JudgeAction, JudgeEvent, JudgePhase, JudgeStep,
    RunOutcome, Verdict,
};
use oi_helper::samples::SampleInfo;
use oi_helper::strdiff::{SpanStyle, StyledSpan};
use oi_helper::workspace::Workspace;

fn sample(input: &str, output: &str, points: u32) -> SampleInfo {
    SampleInfo {
        expected_in: input.to_string(),
        expected_out: output.to_string(),
        timeout: 1000,
        memory_limit: 256,
        points,
    }
}

fn completed(output: &str) -> RunOutcome {
    RunOutcome::Completed { output: output.to_string() }
}

fn workspace() -> Workspace {
    Workspace {
        cc_compiler: "g++".to_string(),
        cc_flags: "-O2 -Wall".to_string(),
        cc_default_extension: "cc".to_string(),
    }
}

fn strings(items: &[&str]) -> Vec<String> {
    items.iter().map(|s| s.to_string()).collect()
}

#[test]
fn matching_output_is_accepted_for_the_points() {
    let verdict = judge_sample(&sample("5", "25", 40), &completed("25"));
    assert_eq!(verdict, Verdict::Accepted { points: 40 });
    assert_eq!(verdict.awarded(), 40);
    assert_eq!(verdict.diff(), None);
}

#[test]
fn actual_output_is_trimmed_before_comparison() {
    let verdict = judge_sample(&sample("5", "25", 10), &completed("  25\n\n"));
    assert_eq!(verdict, Verdict::Accepted { points: 10 });
}

#[test]
fn expected_output_is_not_trimmed() {
    let verdict = judge_sample(&sample("5", "25\n", 10), &completed("25\n"));
    assert_eq!(
        verdict,
        Verdict::WrongAnswer {
            expected: "25\n".to_string(),
            actual: "25".to_string(),
            input: "5".to_string(),
        }
    );
    assert_eq!(verdict.awarded(), 0);
}

#[test]
fn different_output_is_a_wrong_answer_with_a_diff() {
    let verdict = judge_sample(&sample("in", "abc", 10), &completed("abd\n"));
    assert_eq!(
        verdict,
        Verdict::WrongAnswer {
            expected: "abc".to_string(),
            actual: "abd".to_string(),
            input: "in".to_string(),
        }
    );
    assert_eq!(verdict.awarded(), 0);
    let plain = |c| StyledSpan { content: c, style: SpanStyle::Plain };
    let changed = |c| StyledSpan { content: c, style: SpanStyle::Changed };
    assert_eq!(
        verdict.diff(),
        Some((
            vec![plain('a'), plain('b'), plain('c')],
            vec![plain('a'), plain('b'), changed('d')]
        ))
    );
}

#[test]
fn timeout_exceeds_the_limit_whatever_is_expected() {
    for expected in ["", "25", "anything"] {
        let verdict = judge_sample(&sample("5", expected, 60), &RunOutcome::TimedOut);
        assert_eq!(verdict, Verdict::TimeLimitExceeded);
        assert_eq!(verdict.awarded(), 0);
        assert_eq!(verdict.diff(), None);
    }
}

#[test]
fn total_counts_accepted_samples_only() {
    let samples = vec![sample("1", "one", 40), sample("2", "two", 60)];
    let outcomes = vec![completed("one\n"), RunOutcome::TimedOut];
    let result = judge_all(&samples, &outcomes);
    assert_eq!(
        result.verdicts,
        vec![Verdict::Accepted { points: 40 }, Verdict::TimeLimitExceeded]
    );
    assert_eq!(result.total, 40);
}

#[test]
fn total_of_all_accepted_is_the_sum() {
    let samples = vec![sample("1", "a", 33), sample("2", "b", 33), sample("3", "c", 33)];
    let outcomes = vec![completed("a"), completed("b"), completed("c")];
    assert_eq!(judge_all(&samples, &outcomes).total, 99);
    let outcomes = vec![completed("a"), completed("x"), completed("c")];
    assert_eq!(judge_all(&samples, &outcomes).total, 66);
    assert_eq!(judge_all(&vec![], &vec![]).total, 0);
}

#[test]
fn total_does_not_overflow_thirty_two_bits() {
    let samples = vec![sample("1", "a", u32::MAX), sample("2", "b", u32::MAX)];
    let outcomes = vec![completed("a"), completed("b")];
    assert_eq!(judge_all(&samples, &outcomes).total, 2 * (u32::MAX as u128));
}

#[test]
fn judging_reaches_as_far_as_samples_and_outcomes_do() {
    let samples = vec![sample("1", "a", 10), sample("2", "b", 20)];
    let result = judge_all(&samples, &vec![completed("a")]);
    assert_eq!(result.verdicts, vec![Verdict::Accepted { points: 10 }]);
    assert_eq!(result.total, 10);
    let result = judge_all(&vec![sample("1", "a", 10)], &vec![completed("a"), completed("b")]);
    assert_eq!(result.verdicts, vec![Verdict::Accepted { points: 10 }]);
    assert_eq!(result.total, 10);
}

#[test]
fn judging_twice_gives_the_same_result() {
    let samples = vec![sample("1", "one", 40), sample("2", "two", 60), sample("3", "x", 5)];
    let outcomes = vec![completed("one\n"), RunOutcome::TimedOut, completed("y")];
    let first = judge_all(&samples, &outcomes);
    let second = judge_all(&samples, &outcomes);
    assert_eq!(first, second);
}

#[test]
fn engine_runs_the_scenario_of_two_samples() {
    let samples = vec![sample("1", "one", 40), sample("2", "two", 60)];
    let (mut engine, action) = workspace().test("prog", samples);
    assert_eq!(
        action,
        JudgeAction::Compile {
            stale_binary: "prog".to_string(),
            program: "g++".to_string(),
            arguments: strings(&["-O2", "-Wall", "-o", "prog", "prog.cc"]),
        }
    );
    let step = engine.step(&JudgeEvent::CompilerLaunched);
    assert_eq!(
        step,
        JudgeStep {
            verdict: None,
            diff: None,
            action: JudgeAction::RunSample {
                index: 0,
                program: "./prog".to_string(),
                scratch_file: scratch_file(),
                input: "1".to_string(),
                timeout_ms: 1000,
            },
        }
    );
    let step = engine.step(&JudgeEvent::SampleRan { outcome: completed("one\n") });
    assert_eq!(step.verdict, Some(Verdict::Accepted { points: 40 }));
    assert_eq!(
        step.action,
        JudgeAction::RunSample {
            index: 1,
            program: "./prog".to_string(),
            scratch_file: scratch_file(),
            input: "2".to_string(),
            timeout_ms: 1000,
        }
    );
    let step = engine.step(&JudgeEvent::SampleRan { outcome: RunOutcome::TimedOut });
    assert_eq!(step.verdict, Some(Verdict::TimeLimitExceeded));
    assert_eq!(
        step.action,
        JudgeAction::Finish {
            total: 40,
            program: "./prog".to_string(),
            scratch_file: scratch_file(),
        }
    );
    let step = engine.step(&JudgeEvent::SampleRan { outcome: completed("two") });
    assert_eq!(step, JudgeStep { verdict: None, diff: None, action: JudgeAction::Rejected });
}

#[test]
fn engine_gives_up_when_the_compiler_cannot_be_launched() {
    let (mut engine, _) = workspace().test("prog", vec![sample("1", "one", 40)]);
    let step = engine.step(&JudgeEvent::CompilerFailed);
    assert_eq!(
        step,
        JudgeStep {
            verdict: None,
            diff: None,
            action: JudgeAction::Abort { error: HelperError::CompileError },
        }
    );
    let step = engine.step(&JudgeEvent::CompilerLaunched);
    assert_eq!(step.action, JudgeAction::Rejected);
}

#[test]
fn engine_finishes_an_empty_corpus_at_once() {
    let (mut engine, _) = workspace().test("prog", vec![]);
    let step = engine.step(&JudgeEvent::CompilerLaunched);
    assert_eq!(
        step.action,
        JudgeAction::Finish {
            total: 0,
            program: "./prog".to_string(),
            scratch_file: scratch_file(),
        }
    );
}

#[test]
fn engine_rejects_an_outcome_before_compilation() {
    let (mut engine, _) = workspace().test("prog", vec![sample("1", "one", 40)]);
    let step = engine.step(&JudgeEvent::SampleRan { outcome: completed("one") });
    assert_eq!(step, JudgeStep { verdict: None, diff: None, action: JudgeAction::Rejected });
    let step = engine.step(&JudgeEvent::CompilerLaunched);
    assert!(matches!(step.action, JudgeAction::RunSample { index: 0, .. }));
}

#[test]
fn scratch_file_has_its_fixed_name() {
    assert_eq!(scratch_file(), "tkejhowiuyoiuwoiub_in.bakabaka.in.txt");
}

#[test]
fn engine_explains_a_wrong_answer_by_its_diff() {
    let (mut engine, _) = workspace().test("prog", vec![sample("in", "abc", 40)]);
    engine.step(&JudgeEvent::CompilerLaunched);
    let step = engine.step(&JudgeEvent::SampleRan { outcome: completed(" abd \n") });
    let plain = |c| StyledSpan { content: c, style: SpanStyle::Plain };
    let changed = |c| StyledSpan { content: c, style: SpanStyle::Changed };
    assert_eq!(
        step,
        JudgeStep {
            verdict: Some(Verdict::WrongAnswer {
                expected: "abc".to_string(),
                actual: "abd".to_string(),
                input: "in".to_string(),
            }),
            diff: Some((
                vec![plain('a'), plain('b'), plain('c')],
                vec![plain('a'), plain('b'), changed('d')]
            )),
            action: JudgeAction::Finish {
                total: 0,
                program: "./prog".to_string(),
                scratch_file: scratch_file(),
            },
        }
    );
}

#[test]
fn engine_reports_its_progress() {
    let samples = vec![sample("1", "one", 40), sample("2", "two", 60)];
    let (mut engine, _) = workspace().test("prog", samples);
    assert_eq!((engine.phase(), engine.judged(), engine.total()), (JudgePhase::Compiling, 0, 0));
    engine.step(&JudgeEvent::CompilerLaunched);
    assert_eq!((engine.phase(), engine.judged(), engine.total()), (JudgePhase::Iterating, 0, 0));
    engine.step(&JudgeEvent::SampleRan { outcome: completed("one") });
    assert_eq!((engine.phase(), engine.judged(), engine.total()), (JudgePhase::Iterating, 1, 40));
    engine.step(&JudgeEvent::SampleRan { outcome: completed("two") });
    assert_eq!((engine.phase(), engine.judged(), engine.total()), (JudgePhase::Done, 2, 100));
    engine.step(&JudgeEvent::CompilerFailed);
    assert_eq!((engine.phase(), engine.judged(), engine.total()), (JudgePhase::Done, 2, 100));
}

#[test]
fn engine_total_is_the_total_of_the_whole_run() {
    let make = || vec![sample("1", "a", 7), sample("2", "b", 11), sample("3", "c", 13)];
    let outcomes = || vec![completed("a\n"), RunOutcome::TimedOut, completed("c")];
    let (mut engine, _) = workspace().test("prog", make());
    engine.step(&JudgeEvent::CompilerLaunched);
    for outcome in outcomes() {
        engine.step(&JudgeEvent::SampleRan { outcome });
    }
    assert_eq!(engine.total(), judge_all(&make(), &outcomes()).total);
    assert_eq!(engine.total(), 20);
}

#[test]
fn verdicts_are_reported_in_one_line() {
    assert_eq!(Verdict::Accepted { points: 40 }.report_line(0), "Test #0 passed: AC(40)");
    assert_eq!(Verdict::Accepted { points: 0 }.report_line(12), "Test #12 passed: AC(0)");
    assert_eq!(Verdict::TimeLimitExceeded.report_line(3), "Test #3 failed: TLE(0)");
    let wrong = Verdict::WrongAnswer {
        expected: "a".to_string(),
        actual: "b".to_string(),
        input: "c".to_string(),
    };
    assert_eq!(wrong.report_line(7), "Test #7 failed: WA(0)");
}

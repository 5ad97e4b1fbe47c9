use stagerun::run::{RunAction, RunDriver};
use stagerun::step::{Action, Phase, RunOutcome, Step, StepController};

fn step(name: &str) -> Step {
    Step {
        name: name.to_string(),
        execute: format!("UPDATE {} SET done = 1", name),
        check: format!("SELECT done FROM {}", name),
    }
}

/// The calls a simulated run made, in order.
#[derive(Default)]
struct Log {
    executes: Vec<String>,
    checks: Vec<String>,
    asked: usize,
}

/// Drives one step with scripted answers and endpoint results.
fn drive_step(s: &Step, answers: &[&str], results: &[bool], log: &mut Log) -> RunOutcome {
    let mut c = StepController::new(s);
    let mut a = 0;
    let mut r = 0;
    loop {
        match c.request() {
            Action::Ask(_) => {
                c.answer(answers[a]);
                a += 1;
                log.asked += 1;
            }
            Action::Execute(cmd) => {
                log.executes.push(cmd);
                c.call_finished(results[r]);
                r += 1;
            }
            Action::Check(cmd) => {
                log.checks.push(cmd);
                c.call_finished(true);
            }
            Action::Finish(o) => {
                assert_eq!(a, answers.len());
                assert_eq!(r, results.len());
                return o;
            }
        }
    }
}

#[test]
fn skipped_step_never_checks() {
    let s = step("users");
    let mut log = Log::default();
    assert_eq!(drive_step(&s, &["S"], &[], &mut log), RunOutcome::Continue);
    assert!(log.executes.is_empty());
    assert!(log.checks.is_empty());
}

#[test]
fn check_runs_once_plus_once_per_recheck() {
    let s = step("orders");
    let mut log = Log::default();
    let o = drive_step(&s, &["E", "R", "R", "N"], &[true], &mut log);
    assert_eq!(o, RunOutcome::Continue);
    assert_eq!(log.executes.len(), 1);
    assert_eq!(log.checks.len(), 3);
    assert!(log.checks.iter().all(|c| *c == s.check));
}

#[test]
fn next_ends_check_loop_at_once() {
    let s = step("orders");
    let mut log = Log::default();
    assert_eq!(drive_step(&s, &["E", "N"], &[true], &mut log), RunOutcome::Continue);
    assert_eq!(log.checks.len(), 1);
}

#[test]
fn ignore_after_failure_goes_to_check() {
    let s = step("items");
    let mut c = StepController::new(&s);
    c.answer("E");
    c.call_finished(false);
    assert_eq!(c.phase(), Phase::AwaitRetryDecision);
    c.answer("I");
    assert_eq!(c.phase(), Phase::Checking);
    match c.request() {
        Action::Check(cmd) => assert_eq!(cmd, s.check),
        other => panic!("expected a check, got {:?}", other),
    }
}

#[test]
fn retry_resends_identical_command() {
    let s = step("items");
    let mut log = Log::default();
    let o = drive_step(&s, &["E", "R", "R", "N"], &[false, false, true], &mut log);
    assert_eq!(o, RunOutcome::Continue);
    assert_eq!(log.executes, vec![s.execute.clone(), s.execute.clone(), s.execute.clone()]);
    assert_eq!(log.checks.len(), 1);
}

#[test]
fn failure_then_retry_then_success_reaches_check() {
    let s = step("accounts");
    let mut c = StepController::new(&s);
    let mut executes = 0;
    c.answer("E");
    assert!(matches!(c.request(), Action::Execute(_)));
    executes += 1;
    c.call_finished(false);
    c.answer("R");
    assert!(matches!(c.request(), Action::Execute(_)));
    executes += 1;
    c.call_finished(true);
    assert_eq!(c.phase(), Phase::Checking);
    assert_eq!(executes, 2);
}

#[test]
fn check_result_does_not_change_flow() {
    let s = step("audit");
    let mut c = StepController::new(&s);
    c.answer("E");
    c.call_finished(true);
    c.call_finished(false);
    assert_eq!(c.phase(), Phase::AwaitRecheckDecision);
}

#[test]
fn unknown_top_level_answer_terminates() {
    let s = step("users");
    let mut log = Log::default();
    assert_eq!(drive_step(&s, &["X"], &[], &mut log), RunOutcome::Terminate);
    assert!(log.executes.is_empty());
    assert!(log.checks.is_empty());
}

#[test]
fn finished_step_ignores_reports() {
    let s = step("users");
    let mut c = StepController::new(&s);
    c.answer("S");
    c.answer("E");
    c.call_finished(true);
    assert_eq!(c.phase(), Phase::Done(RunOutcome::Continue));
}

#[test]
fn three_steps_second_terminates() {
    let steps = vec![step("one"), step("two"), step("three")];
    let script: Vec<&[&str]> = vec![&["E", "N"], &["X"], &["E", "N"]];
    let mut driver = RunDriver::new(steps.len());
    let mut log = Log::default();
    let mut seen = Vec::new();
    while let RunAction::Process(i) = driver.request() {
        seen.push(i);
        let results: &[bool] = if script[i][0] == "E" { &[true] } else { &[] };
        let o = drive_step(&steps[i], script[i], results, &mut log);
        driver.record(o);
    }
    assert_eq!(seen, vec![0, 1]);
    assert_eq!(driver.processed(), 2);
    assert!(driver.is_stopped());
    assert!(!log.executes.contains(&steps[2].execute));
    assert!(!log.checks.contains(&steps[2].check));
}

#[test]
fn run_without_terminate_processes_all_in_order() {
    let mut driver = RunDriver::new(3);
    let mut seen = Vec::new();
    while let RunAction::Process(i) = driver.request() {
        seen.push(i);
        driver.record(RunOutcome::Continue);
    }
    assert_eq!(seen, vec![0, 1, 2]);
    assert_eq!(driver.processed(), 3);
    assert!(!driver.is_stopped());
}

#[test]
fn empty_run_finishes_at_once() {
    let mut driver = RunDriver::new(0);
    assert_eq!(driver.request(), RunAction::Finished);
    driver.record(RunOutcome::Terminate);
    assert_eq!(driver.processed(), 0);
    assert!(!driver.is_stopped());
}

#[test]
fn terminate_on_first_step_stops_run() {
    let mut driver = RunDriver::new(5);
    assert_eq!(driver.request(), RunAction::Process(0));
    driver.record(RunOutcome::Terminate);
    assert_eq!(driver.request(), RunAction::Finished);
    driver.record(RunOutcome::Continue);
    assert_eq!(driver.request(), RunAction::Finished);
    assert_eq!(driver.processed(), 1);
}

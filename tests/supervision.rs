use detach::supervisor::{outcome_exit_code, BoundedRun, RaceEvent, SupervisedOutcome};

#[test]
fn task_before_deadline_completes() {
    let mut run = BoundedRun::new(Some(3));
    assert_eq!(run.deadline(), Some(3000));
    let o = run.observe(RaceEvent::TaskFinished(Ok(())), 1200);
    assert!(matches!(o, Some(SupervisedOutcome::CompletedOk)));
    assert!(run.is_settled());
    assert!(run.observe(RaceEvent::TimerFired, 3000).is_none());
}

#[test]
fn task_error_before_deadline_is_reported() {
    let mut run = BoundedRun::new(Some(3));
    let o = run.observe(RaceEvent::TaskFinished(Err("broken".to_string())), 10).unwrap();
    assert!(matches!(o, SupervisedOutcome::CompletedErr(ref m) if m == "broken"));
    assert_eq!(outcome_exit_code(&o), 1);
}

#[test]
fn timer_first_times_out_once() {
    let mut run = BoundedRun::new(Some(1));
    let o = run.observe(RaceEvent::TimerFired, 1000).unwrap();
    assert!(matches!(o, SupervisedOutcome::TimedOut));
    assert_eq!(outcome_exit_code(&o), 0);
    assert!(run.observe(RaceEvent::TaskFinished(Ok(())), 1500).is_none());
}

#[test]
fn late_completion_is_a_timeout() {
    let mut run = BoundedRun::new(Some(1));
    let o = run.observe(RaceEvent::TaskFinished(Ok(())), 1001).unwrap();
    assert!(matches!(o, SupervisedOutcome::TimedOut));
}

#[test]
fn unbounded_run_waits_for_task() {
    let mut run = BoundedRun::new(None);
    assert_eq!(run.deadline(), None);
    let o = run.observe(RaceEvent::TaskFinished(Ok(())), u64::MAX).unwrap();
    assert!(matches!(o, SupervisedOutcome::CompletedOk));
    assert_eq!(outcome_exit_code(&o), 0);
}

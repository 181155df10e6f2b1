use detach::command::{
    command_exit_code, map_exit_status, CommandAction, CommandError, CommandEvent, CommandPhase,
    CommandRun, GRACE_MILLIS,
};

fn finish(a: CommandAction) -> Result<(), CommandError> {
    match a {
        CommandAction::Finish(r) => r,
        _ => panic!("the run has not finished"),
    }
}

#[test]
fn exit_zero_is_success() {
    let (mut run, first) = CommandRun::new(None);
    assert!(matches!(first, CommandAction::Spawn));
    assert!(matches!(run.step(CommandEvent::Spawned), CommandAction::Wait(None)));
    let r = finish(run.step(CommandEvent::Exited(Some(0))));
    assert!(r.is_ok());
    assert_eq!(command_exit_code(&r), 0);
    assert_eq!(run.phase(), CommandPhase::Done);
}

#[test]
fn exit_seven_is_command_failed_seven() {
    let (mut run, _) = CommandRun::new(Some(5));
    assert!(matches!(run.step(CommandEvent::Spawned), CommandAction::Wait(Some(5000))));
    let r = finish(run.step(CommandEvent::Exited(Some(7))));
    assert!(matches!(r, Err(CommandError::CommandFailed(7))));
    assert_eq!(command_exit_code(&r), 7);
}

#[test]
fn signal_death_is_failure_with_status_one() {
    let r = map_exit_status(None);
    assert!(matches!(r, Err(CommandError::CommandFailed(1))));
    assert_eq!(command_exit_code(&r), 1);
}

#[test]
fn timeout_escalates_and_reaps() {
    let (mut run, _) = CommandRun::new(Some(1));
    assert!(matches!(run.step(CommandEvent::Spawned), CommandAction::Wait(Some(1000))));
    assert!(matches!(run.step(CommandEvent::WaitTimedOut), CommandAction::SendGraceful));
    match run.step(CommandEvent::GracefulSent) {
        CommandAction::Wait(Some(ms)) => assert_eq!(ms, GRACE_MILLIS),
        _ => panic!("expected the grace window"),
    }
    assert!(matches!(run.step(CommandEvent::WaitTimedOut), CommandAction::Kill));
    assert_eq!(run.phase(), CommandPhase::Killing);
    let r = finish(run.step(CommandEvent::Exited(None)));
    assert!(matches!(r, Err(CommandError::CommandTimedOut)));
    assert_eq!(command_exit_code(&r), 1);
}

#[test]
fn child_leaving_in_grace_window_is_still_a_timeout() {
    let (mut run, _) = CommandRun::new(Some(1));
    run.step(CommandEvent::Spawned);
    run.step(CommandEvent::WaitTimedOut);
    assert!(matches!(run.step(CommandEvent::GracefulUnavailable), CommandAction::Wait(Some(2000))));
    let r = finish(run.step(CommandEvent::Exited(Some(0))));
    assert!(matches!(r, Err(CommandError::CommandTimedOut)));
}

#[test]
fn spawn_and_wait_failures() {
    let (mut run, _) = CommandRun::new(None);
    let r = finish(run.step(CommandEvent::SpawnFailed("no shell".to_string())));
    assert!(matches!(r, Err(CommandError::SpawnFailed(ref m)) if m == "no shell"));
    let (mut run, _) = CommandRun::new(None);
    run.step(CommandEvent::Spawned);
    let r = finish(run.step(CommandEvent::WaitFailed("gone".to_string())));
    assert!(matches!(r, Err(CommandError::WaitFailed(_))));
    assert_eq!(command_exit_code(&r), 1);
}

#[test]
fn huge_timeout_saturates() {
    let (mut run, _) = CommandRun::new(Some(u64::MAX));
    assert!(matches!(run.step(CommandEvent::Spawned), CommandAction::Wait(Some(u64::MAX))));
}

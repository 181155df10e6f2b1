use detach::detachment::{DetachAction, DetachEvent, DetachPhase, DetachStage, Detacher};

#[test]
fn grandchild_reaches_service_in_order() {
    let (mut d, first) = Detacher::new();
    assert_eq!(first, DetachAction::Fork);
    assert_eq!(d.step(DetachEvent::Forked(0)), DetachAction::CreateSession);
    assert_eq!(d.step(DetachEvent::SessionCreated(42)), DetachAction::Fork);
    assert_eq!(d.step(DetachEvent::Forked(0)), DetachAction::ChangeDirToRoot);
    assert_eq!(d.step(DetachEvent::StepSucceeded), DetachAction::RedirectStdio);
    assert_eq!(d.step(DetachEvent::StepSucceeded), DetachAction::ConfigureLogging);
    assert_eq!(d.step(DetachEvent::StepSucceeded), DetachAction::BuildRuntime);
    assert_eq!(d.step(DetachEvent::StepSucceeded), DetachAction::RunService);
    assert_eq!(d.phase(), DetachPhase::Running);
}

#[test]
fn parents_exit() {
    let (mut d, _) = Detacher::new();
    assert_eq!(d.step(DetachEvent::Forked(1234)), DetachAction::ExitParent);
    let (mut d, _) = Detacher::new();
    d.step(DetachEvent::Forked(0));
    d.step(DetachEvent::SessionCreated(7));
    assert_eq!(d.step(DetachEvent::Forked(99)), DetachAction::ExitParent);
    assert_eq!(d.phase(), DetachPhase::ParentExited);
}

#[test]
fn each_stage_failure_is_reported() {
    let (mut d, _) = Detacher::new();
    assert_eq!(d.step(DetachEvent::Forked(-1)), DetachAction::Fail(DetachStage::FirstFork));
    let (mut d, _) = Detacher::new();
    d.step(DetachEvent::Forked(0));
    assert_eq!(d.step(DetachEvent::SessionCreated(-1)), DetachAction::Fail(DetachStage::Session));
    let (mut d, _) = Detacher::new();
    d.step(DetachEvent::Forked(0));
    d.step(DetachEvent::SessionCreated(1));
    assert_eq!(d.step(DetachEvent::Forked(-1)), DetachAction::Fail(DetachStage::SecondFork));
    let stages = [DetachStage::Chdir, DetachStage::Redirect, DetachStage::Logging, DetachStage::Runtime];
    for (k, stage) in stages.iter().enumerate() {
        let (mut d, _) = Detacher::new();
        d.step(DetachEvent::Forked(0));
        d.step(DetachEvent::SessionCreated(1));
        d.step(DetachEvent::Forked(0));
        for _ in 0..k {
            d.step(DetachEvent::StepSucceeded);
        }
        assert_eq!(d.step(DetachEvent::StepFailed), DetachAction::Fail(*stage));
        assert_eq!(d.step(DetachEvent::StepSucceeded), DetachAction::Fail(*stage));
    }
}

#[test]
fn runtime_is_never_built_before_the_second_fork() {
    let (mut d, _) = Detacher::new();
    assert_eq!(d.step(DetachEvent::StepSucceeded), DetachAction::Fork);
    assert_eq!(d.phase(), DetachPhase::Start);
    d.step(DetachEvent::Forked(0));
    assert_eq!(d.step(DetachEvent::StepSucceeded), DetachAction::CreateSession);
    assert_eq!(d.phase(), DetachPhase::FirstChild);
}

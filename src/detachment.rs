use vstd::prelude::*;

verus! {

/// Delay between the end of the daemon's work and its exit, so that buffered
/// log records reach the file.
pub const FLUSH_GRACE_MILLIS: u64 = 100;

/// The step of the sequence whose failure stopped it.
#[derive(Clone, Copy, Debug, PartialEq, Eq, Structural)]
pub enum DetachStage {
    FirstFork,
    Session,
    SecondFork,
    Chdir,
    Redirect,
    Logging,
    Runtime,
}

/// Where a process stands in the detachment sequence. The phase gives the
/// process's role: `Start` is the process that was started, `FirstChild` and
/// `SessionLeader` the intermediate child, which exits after the second fork,
/// and the phases from `Daemonized` on the daemon, the only process that
/// goes on to do the work.
#[derive(Clone, Copy, Debug, PartialEq, Eq, Structural)]
pub enum DetachPhase {
    /// Nothing done yet; the first fork is due.
    Start,
    /// Child of the first fork; a new session is due.
    FirstChild,
    /// Leader of a new session; the second fork is due.
    SessionLeader,
    /// Child of the second fork; the move to the root directory is due.
    Daemonized,
    /// In the root directory; the standard streams are to be redirected.
    Rooted,
    /// Standard streams on the null device; the logging sinks are due.
    Redirected,
    /// Logging configured; the asynchronous runtime may now be built.
    LoggingReady,
    /// The runtime exists and runs the service.
    Running,
    /// A parent of a fork, which is to exit with status 0.
    ParentExited,
    /// The sequence failed at this stage.
    Failed(DetachStage),
}

/// What the caller observed after performing the last action.
#[derive(Clone, Copy, Debug, PartialEq, Eq, Structural)]
pub enum DetachEvent {
    /// `fork` returned this value: negative on failure, 0 in the child, the
    /// child's id in the parent.
    Forked(i32),
    /// `setsid` returned this value: negative on failure.
    SessionCreated(i32),
    /// The step performed succeeded.
    StepSucceeded,
    /// The step performed failed.
    StepFailed,
}

/// What the caller is to do next.
#[derive(Clone, Copy, Debug, PartialEq, Eq, Structural)]
pub enum DetachAction {
    Fork,
    /// Exit this process with status 0 at once.
    ExitParent,
    CreateSession,
    /// Make the filesystem root the working directory.
    ChangeDirToRoot,
    /// Reopen stdin, stdout and stderr on the null device, in place.
    RedirectStdio,
    ConfigureLogging,
    /// Build the multi-threaded asynchronous runtime.
    BuildRuntime,
    /// Run the supervised work on the runtime, then exit.
    RunService,
    /// Stop and report the failed stage.
    Fail(DetachStage),
}

/// The action that a process in `phase` waits to have performed.
pub open spec fn due_action(phase: DetachPhase) -> DetachAction {
    match phase {
        DetachPhase::Start => DetachAction::Fork,
        DetachPhase::FirstChild => DetachAction::CreateSession,
        DetachPhase::SessionLeader => DetachAction::Fork,
        DetachPhase::Daemonized => DetachAction::ChangeDirToRoot,
        DetachPhase::Rooted => DetachAction::RedirectStdio,
        DetachPhase::Redirected => DetachAction::ConfigureLogging,
        DetachPhase::LoggingReady => DetachAction::BuildRuntime,
        DetachPhase::Running => DetachAction::RunService,
        DetachPhase::ParentExited => DetachAction::ExitParent,
        DetachPhase::Failed(stage) => DetachAction::Fail(stage),
    }
}

/// Moves to `phase` and asks for what it waits on.
pub open spec fn enter(phase: DetachPhase) -> (DetachPhase, DetachAction) {
    (phase, due_action(phase))
}

/// One step of the sequence: each step may only follow the one before it,
/// any failure is final, and a fork's parent exits.
pub open spec fn next(phase: DetachPhase, event: DetachEvent) -> (DetachPhase, DetachAction) {
    match (phase, event) {
        (DetachPhase::Start, DetachEvent::Forked(pid)) => {
            if pid < 0 {
                enter(DetachPhase::Failed(DetachStage::FirstFork))
            } else if pid > 0 {
                enter(DetachPhase::ParentExited)
            } else {
                enter(DetachPhase::FirstChild)
            }
        },
        (DetachPhase::FirstChild, DetachEvent::SessionCreated(sid)) => {
            if sid < 0 {
                enter(DetachPhase::Failed(DetachStage::Session))
            } else {
                enter(DetachPhase::SessionLeader)
            }
        },
        (DetachPhase::SessionLeader, DetachEvent::Forked(pid)) => {
            if pid < 0 {
                enter(DetachPhase::Failed(DetachStage::SecondFork))
            } else if pid > 0 {
                enter(DetachPhase::ParentExited)
            } else {
                enter(DetachPhase::Daemonized)
            }
        },
        (DetachPhase::Daemonized, DetachEvent::StepSucceeded) => enter(DetachPhase::Rooted),
        (DetachPhase::Daemonized, DetachEvent::StepFailed) => enter(
            DetachPhase::Failed(DetachStage::Chdir),
        ),
        (DetachPhase::Rooted, DetachEvent::StepSucceeded) => enter(DetachPhase::Redirected),
        (DetachPhase::Rooted, DetachEvent::StepFailed) => enter(
            DetachPhase::Failed(DetachStage::Redirect),
        ),
        (DetachPhase::Redirected, DetachEvent::StepSucceeded) => enter(DetachPhase::LoggingReady),
        (DetachPhase::Redirected, DetachEvent::StepFailed) => enter(
            DetachPhase::Failed(DetachStage::Logging),
        ),
        (DetachPhase::LoggingReady, DetachEvent::StepSucceeded) => enter(DetachPhase::Running),
        (DetachPhase::LoggingReady, DetachEvent::StepFailed) => enter(
            DetachPhase::Failed(DetachStage::Runtime),
        ),
        _ => enter(phase),
    }
}

/// The phase that a process reaches from `Start` through `events`.
pub open spec fn run(events: Seq<DetachEvent>) -> DetachPhase
    decreases events.len(),
{
    if events.len() == 0 {
        DetachPhase::Start
    } else {
        next(run(events.drop_last()), events.last()).0
    }
}

/// Position of a phase on the one path from `Start` to `Running`; none for
/// a parent that exits or a failed sequence.
pub open spec fn rank(phase: DetachPhase) -> Option<nat> {
    match phase {
        DetachPhase::Start => Some(0),
        DetachPhase::FirstChild => Some(1),
        DetachPhase::SessionLeader => Some(2),
        DetachPhase::Daemonized => Some(3),
        DetachPhase::Rooted => Some(4),
        DetachPhase::Redirected => Some(5),
        DetachPhase::LoggingReady => Some(6),
        DetachPhase::Running => Some(7),
        _ => None,
    }
}

/// The phase at position `k` of the path to `Running`.
pub open spec fn phase_at(k: nat) -> DetachPhase {
    if k == 0 {
        DetachPhase::Start
    } else if k == 1 {
        DetachPhase::FirstChild
    } else if k == 2 {
        DetachPhase::SessionLeader
    } else if k == 3 {
        DetachPhase::Daemonized
    } else if k == 4 {
        DetachPhase::Rooted
    } else if k == 5 {
        DetachPhase::Redirected
    } else if k == 6 {
        DetachPhase::LoggingReady
    } else {
        DetachPhase::Running
    }
}

/// A step never leaves a parent's exit or a failure, and along the path it
/// advances by at most one phase.
pub proof fn lemma_step_advances_by_one(phase: DetachPhase, event: DetachEvent)
    ensures
        rank(next(phase, event).0) is Some ==> {
            &&& rank(phase) is Some
            &&& (rank(next(phase, event).0)->0 == rank(phase)->0
                || rank(next(phase, event).0)->0 == rank(phase)->0 + 1)
        },
        rank(phase) is Some ==> phase_at(rank(phase)->0) == phase,
{
}

/// Phases along a run only move forward on the path: an earlier point of the
/// run stands at an earlier or the same phase.
pub proof fn law_phases_in_order(events: Seq<DetachEvent>, i: int, j: int)
    requires
        0 <= i <= j <= events.len(),
        rank(run(events.take(j))) is Some,
    ensures
        rank(run(events.take(i))) is Some,
        rank(run(events.take(i)))->0 <= rank(run(events.take(j)))->0,
    decreases j - i,
{
    if i < j {
        let before = events.take(j - 1);
        assert(events.take(j).drop_last() =~= before);
        lemma_step_advances_by_one(run(before), events.take(j).last());
        law_phases_in_order(events, i, j - 1);
    }
}

/// Only one path reaches the daemon: a process in a phase of the path,
/// `Running` included, has passed through every earlier phase of it. So the
/// runtime is built only after both forks, the new session, the move to the
/// root directory, the redirection of the standard streams and the logging
/// sinks, in that order.
pub proof fn law_one_path_to_service(events: Seq<DetachEvent>, k: nat)
    requires
        rank(run(events)) is Some,
        k <= rank(run(events))->0,
    ensures
        exists|j: int| 0 <= j <= events.len() && run(#[trigger] events.take(j)) == phase_at(k),
    decreases events.len(),
{
    assert(events.take(events.len() as int) =~= events);
    lemma_step_advances_by_one(run(events), DetachEvent::StepFailed);
    if events.len() == 0 {
        assert(run(events.take(0)) == phase_at(k));
    } else {
        let before = events.drop_last();
        lemma_step_advances_by_one(run(before), events.last());
        lemma_step_advances_by_one(run(before), DetachEvent::StepFailed);
        if k <= rank(run(before))->0 {
            law_one_path_to_service(before, k);
            let j = choose|j: int| 0 <= j <= before.len() && run(#[trigger] before.take(j)) == phase_at(k);
            assert(before.take(j) =~= events.take(j));
        } else {
            assert(run(events.take(events.len() as int)) == phase_at(k));
        }
    }
}

/// The sequence as driven by one process: the phase it is in.
pub struct Detacher {
    phase: DetachPhase,
}

impl Detacher {
    pub closed spec fn phase_spec(&self) -> DetachPhase {
        self.phase
    }

    /// The sequence before its first step; the first action is `Fork`.
    pub fn new() -> (r: (Detacher, DetachAction))
        ensures
            r.0.phase_spec() == DetachPhase::Start,
            r.1 == DetachAction::Fork,
    {
        (Detacher { phase: DetachPhase::Start }, DetachAction::Fork)
    }

    pub fn phase(&self) -> (r: DetachPhase)
        ensures
            r == self.phase_spec(),
    {
        self.phase
    }

    /// Takes the outcome of the last action and returns the next one.
    pub fn step(&mut self, event: DetachEvent) -> (r: DetachAction)
        ensures
            (final(self).phase_spec(), r) == next(old(self).phase_spec(), event),
    {
        let phase = match (self.phase, event) {
            (DetachPhase::Start, DetachEvent::Forked(pid)) => {
                if pid < 0 {
                    DetachPhase::Failed(DetachStage::FirstFork)
                } else if pid > 0 {
                    DetachPhase::ParentExited
                } else {
                    DetachPhase::FirstChild
                }
            },
            (DetachPhase::FirstChild, DetachEvent::SessionCreated(sid)) => {
                if sid < 0 {
                    DetachPhase::Failed(DetachStage::Session)
                } else {
                    DetachPhase::SessionLeader
                }
            },
            (DetachPhase::SessionLeader, DetachEvent::Forked(pid)) => {
                if pid < 0 {
                    DetachPhase::Failed(DetachStage::SecondFork)
                } else if pid > 0 {
                    DetachPhase::ParentExited
                } else {
                    DetachPhase::Daemonized
                }
            },
            (DetachPhase::Daemonized, DetachEvent::StepSucceeded) => DetachPhase::Rooted,
            (DetachPhase::Daemonized, DetachEvent::StepFailed) => DetachPhase::Failed(
                DetachStage::Chdir,
            ),
            (DetachPhase::Rooted, DetachEvent::StepSucceeded) => DetachPhase::Redirected,
            (DetachPhase::Rooted, DetachEvent::StepFailed) => DetachPhase::Failed(
                DetachStage::Redirect,
            ),
            (DetachPhase::Redirected, DetachEvent::StepSucceeded) => DetachPhase::LoggingReady,
            (DetachPhase::Redirected, DetachEvent::StepFailed) => DetachPhase::Failed(
                DetachStage::Logging,
            ),
            (DetachPhase::LoggingReady, DetachEvent::StepSucceeded) => DetachPhase::Running,
            (DetachPhase::LoggingReady, DetachEvent::StepFailed) => DetachPhase::Failed(
                DetachStage::Runtime,
            ),
            (p, _) => p,
        };
        self.phase = phase;
        action_for(phase)
    }
}

fn action_for(phase: DetachPhase) -> (r: DetachAction)
    ensures
        r == due_action(phase),
{
    match phase {
        DetachPhase::Start => DetachAction::Fork,
        DetachPhase::FirstChild => DetachAction::CreateSession,
        DetachPhase::SessionLeader => DetachAction::Fork,
        DetachPhase::Daemonized => DetachAction::ChangeDirToRoot,
        DetachPhase::Rooted => DetachAction::RedirectStdio,
        DetachPhase::Redirected => DetachAction::ConfigureLogging,
        DetachPhase::LoggingReady => DetachAction::BuildRuntime,
        DetachPhase::Running => DetachAction::RunService,
        DetachPhase::ParentExited => DetachAction::ExitParent,
        DetachPhase::Failed(stage) => DetachAction::Fail(stage),
    }
}

} // verus!

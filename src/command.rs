use vstd::prelude::*;
use crate::supervisor::millis_of_secs;

verus! {

/// Program that runs a command line, so that pipes and redirections work.
pub const SHELL: &'static str = "sh";

/// Flag that makes the shell run its next argument as a command line.
pub const SHELL_COMMAND_FLAG: &'static str = "-c";

/// Time that a child is given to exit after the graceful request.
pub const GRACE_MILLIS: u64 = 2000;

/// Why running a command did not succeed.
#[derive(Debug)]
pub enum CommandError {
    /// The shell could not be started.
    SpawnFailed(String),
    /// Waiting for the child failed before it was seen to exit.
    WaitFailed(String),
    /// The command exited with this nonzero status.
    CommandFailed(i32),
    /// The command outlived its deadline and was stopped.
    CommandTimedOut,
}

/// The result of a command that exited by itself with `code` (none when a
/// signal ended it).
pub open spec fn exit_result(code: Option<i32>) -> Result<(), CommandError> {
    match code {
        Some(0) => Ok(()),
        Some(c) => Err(CommandError::CommandFailed(c)),
        None => Err(CommandError::CommandFailed(1)),
    }
}

pub fn map_exit_status(code: Option<i32>) -> (r: Result<(), CommandError>)
    ensures
        r == exit_result(code),
{
    match code {
        Some(0) => Ok(()),
        Some(c) => Err(CommandError::CommandFailed(c)),
        None => Err(CommandError::CommandFailed(1)),
    }
}

/// The exit status of the process that ran a command: the command's own
/// status when it failed with one, 1 on any other failure.
pub open spec fn command_exit_code_spec(r: Result<(), CommandError>) -> i32 {
    match r {
        Ok(()) => 0,
        Err(CommandError::CommandFailed(c)) => c,
        Err(_) => 1,
    }
}

pub fn command_exit_code(r: &Result<(), CommandError>) -> (code: i32)
    ensures
        code == command_exit_code_spec(*r),
{
    match r {
        Ok(()) => 0,
        Err(CommandError::CommandFailed(c)) => *c,
        Err(_) => 1,
    }
}

/// Where the run of a command stands.
#[derive(Clone, Copy, Debug, PartialEq, Eq, Structural)]
pub enum CommandPhase {
    /// The shell is to be started.
    Starting,
    /// The child runs; its exit or the deadline is awaited.
    Running,
    /// The deadline passed; the graceful request is to be sent.
    Terminating,
    /// The graceful request is out; the child has the grace window to exit.
    Grace,
    /// The child is to be killed and then reaped.
    Killing,
    /// The result has been handed out.
    Done,
}

/// What the caller observed after performing the last action.
#[derive(Debug)]
pub enum CommandEvent {
    Spawned,
    SpawnFailed(String),
    /// The child exited and was reaped, with its status code if it had one.
    Exited(Option<i32>),
    WaitFailed(String),
    /// The bounded wait ended with the child still alive.
    WaitTimedOut,
    /// The graceful termination request went to the child's process group.
    GracefulSent,
    /// This platform cannot deliver a graceful termination request.
    GracefulUnavailable,
}

/// What the caller is to do next.
#[derive(Debug)]
pub enum CommandAction {
    /// Start `SHELL` with `SHELL_COMMAND_FLAG` and the command line.
    Spawn,
    /// Wait for the child to exit, at most this many milliseconds if bounded.
    Wait(Option<u64>),
    /// Ask the child's process group to terminate.
    SendGraceful,
    /// Kill the child, then wait for it without bound so it is reaped.
    Kill,
    /// Nothing more to do: this is the result.
    Finish(Result<(), CommandError>),
}

/// The run of one external command with an optional deadline: spawn, wait,
/// and on expiry a graceful request, the grace window, a kill, and a final
/// wait, so that no child is left behind.
pub struct CommandRun {
    phase: CommandPhase,
    deadline: Option<u64>,
}

impl CommandRun {
    pub closed spec fn phase_spec(&self) -> CommandPhase {
        self.phase
    }

    pub closed spec fn deadline_spec(&self) -> Option<u64> {
        self.deadline
    }

    /// A run bounded by `timeout_secs` seconds, if given. Its first action
    /// is `Spawn`.
    pub fn new(timeout_secs: Option<u64>) -> (r: (CommandRun, CommandAction))
        ensures
            r.0.phase_spec() == CommandPhase::Starting,
            r.0.deadline_spec() == (match timeout_secs {
                Some(s) => Some(millis_of_secs(s)),
                None => None,
            }),
            r.1 is Spawn,
    {
        let deadline = match timeout_secs {
            Some(s) => if s <= u64::MAX / 1000 {
                Some(s * 1000)
            } else {
                Some(u64::MAX)
            },
            None => None,
        };
        (CommandRun { phase: CommandPhase::Starting, deadline }, CommandAction::Spawn)
    }

    pub fn phase(&self) -> (r: CommandPhase)
        ensures
            r == self.phase_spec(),
    {
        self.phase
    }

    /// Takes the outcome of the last action and returns the next one.
    pub fn step(&mut self, event: CommandEvent) -> (r: CommandAction)
        ensures
            final(self).deadline_spec() == old(self).deadline_spec(),
            (final(self).phase_spec(), r) == command_next(
                old(self).phase_spec(),
                old(self).deadline_spec(),
                event,
            ),
    {
        match (self.phase, event) {
            (CommandPhase::Starting, CommandEvent::Spawned) => {
                self.phase = CommandPhase::Running;
                CommandAction::Wait(self.deadline)
            },
            (CommandPhase::Starting, CommandEvent::SpawnFailed(e)) => {
                self.phase = CommandPhase::Done;
                CommandAction::Finish(Err(CommandError::SpawnFailed(e)))
            },
            (CommandPhase::Running, CommandEvent::Exited(code)) => {
                self.phase = CommandPhase::Done;
                CommandAction::Finish(map_exit_status(code))
            },
            (CommandPhase::Running, CommandEvent::WaitFailed(e)) => {
                self.phase = CommandPhase::Done;
                CommandAction::Finish(Err(CommandError::WaitFailed(e)))
            },
            (CommandPhase::Running, CommandEvent::WaitTimedOut) => {
                self.phase = CommandPhase::Terminating;
                CommandAction::SendGraceful
            },
            (CommandPhase::Terminating, CommandEvent::GracefulSent)
            | (CommandPhase::Terminating, CommandEvent::GracefulUnavailable) => {
                self.phase = CommandPhase::Grace;
                CommandAction::Wait(Some(GRACE_MILLIS))
            },
            (CommandPhase::Grace, CommandEvent::Exited(_)) => {
                self.phase = CommandPhase::Done;
                CommandAction::Finish(Err(CommandError::CommandTimedOut))
            },
            (CommandPhase::Grace, CommandEvent::WaitTimedOut)
            | (CommandPhase::Grace, CommandEvent::WaitFailed(_)) => {
                self.phase = CommandPhase::Killing;
                CommandAction::Kill
            },
            (CommandPhase::Killing, CommandEvent::Exited(_))
            | (CommandPhase::Killing, CommandEvent::WaitFailed(_)) => {
                self.phase = CommandPhase::Done;
                CommandAction::Finish(Err(CommandError::CommandTimedOut))
            },
            (phase, _) => resume(phase, self.deadline),
        }
    }
}

/// One step of a command run in `phase` with `deadline`: the next phase and
/// the next action once `event` has been observed.
pub open spec fn command_next(phase: CommandPhase, deadline: Option<u64>, event: CommandEvent) -> (
    CommandPhase,
    CommandAction,
) {
    match (phase, event) {
        (CommandPhase::Starting, CommandEvent::Spawned) => (
            CommandPhase::Running,
            CommandAction::Wait(deadline),
        ),
        (CommandPhase::Starting, CommandEvent::SpawnFailed(e)) => (
            CommandPhase::Done,
            CommandAction::Finish(Err(CommandError::SpawnFailed(e))),
        ),
        (CommandPhase::Running, CommandEvent::Exited(code)) => (
            CommandPhase::Done,
            CommandAction::Finish(exit_result(code)),
        ),
        (CommandPhase::Running, CommandEvent::WaitFailed(e)) => (
            CommandPhase::Done,
            CommandAction::Finish(Err(CommandError::WaitFailed(e))),
        ),
        (CommandPhase::Running, CommandEvent::WaitTimedOut) => (
            CommandPhase::Terminating,
            CommandAction::SendGraceful,
        ),
        (CommandPhase::Terminating, CommandEvent::GracefulSent)
        | (CommandPhase::Terminating, CommandEvent::GracefulUnavailable) => (
            CommandPhase::Grace,
            CommandAction::Wait(Some(GRACE_MILLIS)),
        ),
        (CommandPhase::Grace, CommandEvent::Exited(_)) => (
            CommandPhase::Done,
            CommandAction::Finish(Err(CommandError::CommandTimedOut)),
        ),
        (CommandPhase::Grace, CommandEvent::WaitTimedOut)
        | (CommandPhase::Grace, CommandEvent::WaitFailed(_)) => (
            CommandPhase::Killing,
            CommandAction::Kill,
        ),
        (CommandPhase::Killing, CommandEvent::Exited(_))
        | (CommandPhase::Killing, CommandEvent::WaitFailed(_)) => (
            CommandPhase::Done,
            CommandAction::Finish(Err(CommandError::CommandTimedOut)),
        ),
        _ => (phase, resume_action(phase, deadline)),
    }
}

/// A run reports a timeout only once the child is gone: the last event was
/// its exit, seen during the grace window or in the final wait after the
/// kill (a wait that failed there has nothing left to wait for). A kill comes
/// only once the grace window after the graceful request has passed, and a
/// finished run never hands out a second result.
pub proof fn law_timeout_leaves_no_child(phase: CommandPhase, deadline: Option<u64>, event: CommandEvent)
    ensures
        command_next(phase, deadline, event).1 == CommandAction::Finish(
            Err(CommandError::CommandTimedOut),
        ) ==> {
            ||| (phase == CommandPhase::Grace && event is Exited)
            ||| (phase == CommandPhase::Killing && (event is Exited || event is WaitFailed))
        },
        command_next(phase, deadline, event).1 is Kill ==> phase == CommandPhase::Grace
            || phase == CommandPhase::Killing,
        phase == CommandPhase::Done ==> !(command_next(phase, deadline, event).1 is Finish),
        phase == CommandPhase::Done ==> command_next(phase, deadline, event).0 == CommandPhase::Done,
{
}

/// The action that a run in `phase` waits to have performed. A finished run
/// has no result left to hand out and asks to wait for nothing.
pub open spec fn resume_action(phase: CommandPhase, deadline: Option<u64>) -> CommandAction {
    match phase {
        CommandPhase::Starting => CommandAction::Spawn,
        CommandPhase::Running => CommandAction::Wait(deadline),
        CommandPhase::Terminating => CommandAction::SendGraceful,
        CommandPhase::Grace => CommandAction::Wait(Some(GRACE_MILLIS)),
        CommandPhase::Killing => CommandAction::Kill,
        CommandPhase::Done => CommandAction::Wait(Some(0)),
    }
}

fn resume(phase: CommandPhase, deadline: Option<u64>) -> (r: CommandAction)
    ensures
        r == resume_action(phase, deadline),
{
    match phase {
        CommandPhase::Starting => CommandAction::Spawn,
        CommandPhase::Running => CommandAction::Wait(deadline),
        CommandPhase::Terminating => CommandAction::SendGraceful,
        CommandPhase::Grace => CommandAction::Wait(Some(GRACE_MILLIS)),
        CommandPhase::Killing => CommandAction::Kill,
        CommandPhase::Done => CommandAction::Wait(Some(0)),
    }
}

} // verus!

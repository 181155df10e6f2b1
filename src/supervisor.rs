use vstd::prelude::*;

verus! {

/// How a supervised run ended.
#[derive(Debug)]
pub enum SupervisedOutcome {
    /// The task returned success before the deadline.
    CompletedOk,
    /// The task returned this error before the deadline.
    CompletedErr(String),
    /// The deadline passed first; the task was cancelled.
    TimedOut,
}

/// One of the two events that a supervised run races.
#[derive(Debug)]
pub enum RaceEvent {
    /// The task finished, with success or with an error message.
    TaskFinished(Result<(), String>),
    /// The timer set for the deadline fired.
    TimerFired,
}

/// What a run with `deadline` decides when `event` is the first event seen,
/// observed `at` milliseconds after the start. A task that finishes after the
/// deadline is late: the run has timed out.
pub open spec fn decide(deadline: Option<u64>, event: RaceEvent, at: u64) -> SupervisedOutcome {
    match event {
        RaceEvent::TaskFinished(res) => {
            if deadline is Some && at > deadline->0 {
                SupervisedOutcome::TimedOut
            } else {
                match res {
                    Ok(()) => SupervisedOutcome::CompletedOk,
                    Err(e) => SupervisedOutcome::CompletedErr(e),
                }
            }
        },
        RaceEvent::TimerFired => SupervisedOutcome::TimedOut,
    }
}

/// The bound of a run given in whole seconds, in milliseconds, saturating at
/// the largest `u64`.
pub open spec fn millis_of_secs(secs: u64) -> u64 {
    if secs <= u64::MAX / 1000 {
        (secs * 1000) as u64
    } else {
        u64::MAX
    }
}

/// A run of one task, optionally bounded by a deadline. The first event
/// observed decides the outcome; later events are ignored, so exactly one
/// outcome is reported.
pub struct BoundedRun {
    deadline: Option<u64>,
    settled_at: Option<u64>,
}

impl BoundedRun {
    pub closed spec fn deadline_spec(&self) -> Option<u64> {
        self.deadline
    }

    /// When the outcome was decided, if it was.
    pub closed spec fn settled_at_spec(&self) -> Option<u64> {
        self.settled_at
    }

    /// A run that times out `timeout_secs` seconds after it starts, or never.
    pub fn new(timeout_secs: Option<u64>) -> (r: BoundedRun)
        ensures
            r.deadline_spec() == (match timeout_secs {
                Some(s) => Some(millis_of_secs(s)),
                None => None,
            }),
            r.settled_at_spec() is None,
    {
        let deadline = match timeout_secs {
            Some(s) => if s <= u64::MAX / 1000 {
                Some(s * 1000)
            } else {
                Some(u64::MAX)
            },
            None => None,
        };
        BoundedRun { deadline, settled_at: None }
    }

    /// Milliseconds after the start at which the timer is to fire, if any.
    pub fn deadline(&self) -> (r: Option<u64>)
        ensures
            r == self.deadline_spec(),
    {
        self.deadline
    }

    pub fn is_settled(&self) -> (r: bool)
        ensures
            r == (self.settled_at_spec() is Some),
    {
        self.settled_at.is_some()
    }

    /// Takes an event observed `at` milliseconds after the start. The first
    /// one decides the outcome, which is returned; every later one returns
    /// `None` and changes nothing.
    pub fn observe(&mut self, event: RaceEvent, at: u64) -> (r: Option<SupervisedOutcome>)
        ensures
            final(self).deadline_spec() == old(self).deadline_spec(),
            old(self).settled_at_spec() is Some ==> {
                &&& r is None
                &&& final(self).settled_at_spec() == old(self).settled_at_spec()
            },
            old(self).settled_at_spec() is None ==> {
                &&& r == Some(decide(old(self).deadline_spec(), event, at))
                &&& final(self).settled_at_spec() == Some(at)
            },
    {
        if self.settled_at.is_some() {
            return None;
        }
        self.settled_at = Some(at);
        let late = match self.deadline {
            Some(d) => at > d,
            None => false,
        };
        let outcome = match event {
            RaceEvent::TaskFinished(res) => {
                if late {
                    SupervisedOutcome::TimedOut
                } else {
                    match res {
                        Ok(()) => SupervisedOutcome::CompletedOk,
                        Err(e) => SupervisedOutcome::CompletedErr(e),
                    }
                }
            },
            RaceEvent::TimerFired => SupervisedOutcome::TimedOut,
        };
        Some(outcome)
    }
}

/// The first event of a run with `deadline` whose task finishes, with
/// `result`, `t` milliseconds after the start, and when it is seen.
pub open spec fn first_event(deadline: Option<u64>, t: u64, result: Result<(), String>) -> (RaceEvent, u64) {
    match deadline {
        Some(d) if d < t => (RaceEvent::TimerFired, d),
        _ => (RaceEvent::TaskFinished(result), t),
    }
}

/// A task that finishes `t` milliseconds after the start, raced against a
/// deadline `d`: before the deadline the run completes with the task's
/// result and settles at `t`; after it the run times out and settles at `d`.
/// A completion that is reported late, after the deadline, is a timeout too.
pub proof fn law_earlier_event_decides(d: u64, t: u64, result: Result<(), String>)
    ensures
        t < d ==> {
            &&& first_event(Some(d), t, result).1 == t
            &&& decide(Some(d), first_event(Some(d), t, result).0, t) == match result {
                Ok(()) => SupervisedOutcome::CompletedOk,
                Err(e) => SupervisedOutcome::CompletedErr(e),
            }
        },
        t > d ==> {
            &&& first_event(Some(d), t, result).1 == d
            &&& decide(Some(d), first_event(Some(d), t, result).0, d) == SupervisedOutcome::TimedOut
            &&& decide(Some(d), RaceEvent::TaskFinished(result), t) == SupervisedOutcome::TimedOut
        },
        decide(None, first_event(None, t, result).0, t) == match result {
            Ok(()) => SupervisedOutcome::CompletedOk,
            Err(e) => SupervisedOutcome::CompletedErr(e),
        },
{
}

/// The exit status of a process whose work ended with `outcome`: a timeout
/// is an intended shutdown, so only a task error fails the process.
pub open spec fn outcome_exit_code_spec(outcome: SupervisedOutcome) -> i32 {
    match outcome {
        SupervisedOutcome::CompletedErr(_) => 1,
        _ => 0,
    }
}

pub fn outcome_exit_code(outcome: &SupervisedOutcome) -> (r: i32)
    ensures
        r == outcome_exit_code_spec(*outcome),
{
    match outcome {
        SupervisedOutcome::CompletedErr(_) => 1,
        _ => 0,
    }
}

} // verus!

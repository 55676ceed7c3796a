use vstd::prelude::*;

use crate::setup::{Fault, Status};

verus! {

/// Where the process stands, from launch to exit.
#[derive(Clone, Copy, Debug, PartialEq, Eq, Structural)]
pub enum Phase {
    /// The setup hook has not finished yet.
    NotStarted,
    /// Setup succeeded and the host's event loop runs.
    Running,
    /// The event loop ended normally; the process exits with status 0.
    Exited,
    /// Start-up failed; the process ends abnormally with this fault's diagnostic.
    Crashed(Fault),
}

/// What the host runtime reports to the process.
#[derive(Clone, Copy, Debug, PartialEq, Eq, Structural)]
pub enum Signal {
    /// The setup hook returned success.
    SetupSucceeded,
    /// The setup hook returned this fault.
    SetupFailed(Fault),
    /// The event loop ended normally.
    LoopExited,
    /// The event loop could not start, or failed.
    LoopFailed,
}

/// The phase after signal `g` in phase `p`. Exited and crashed processes
/// stay as they are, and a signal that does not fit the phase is ignored.
pub open spec fn next_phase(p: Phase, g: Signal) -> Phase {
    match p {
        Phase::NotStarted => match g {
            Signal::SetupSucceeded => Phase::Running,
            Signal::SetupFailed(f) => Phase::Crashed(f),
            Signal::LoopFailed => Phase::Crashed(Fault::RunLoop),
            Signal::LoopExited => p,
        },
        Phase::Running => match g {
            Signal::LoopExited => Phase::Exited,
            Signal::LoopFailed => Phase::Crashed(Fault::RunLoop),
            _ => p,
        },
        _ => p,
    }
}

/// The phase after the signals `gs`, in order.
pub open spec fn after_signals(p: Phase, gs: Seq<Signal>) -> Phase
    decreases gs.len(),
{
    if gs.len() == 0 {
        p
    } else {
        after_signals(next_phase(p, gs[0]), gs.drop_first())
    }
}

/// How the process ends in phase `p`, once it has ended: success, or the
/// fault whose diagnostic it ends with.
pub open spec fn verdict_of(p: Phase) -> Option<Result<(), Fault>> {
    match p {
        Phase::Exited => Some(Ok(())),
        Phase::Crashed(f) => Some(Err(f)),
        _ => None,
    }
}

/// The signal that a finished setup run sends, if it has finished.
pub open spec fn setup_signal_of(s: Status) -> Option<Signal> {
    match s {
        Status::Pending => None,
        Status::Completed => Some(Signal::SetupSucceeded),
        Status::Aborted(f) => Some(Signal::SetupFailed(f)),
    }
}

/// The signal that a setup run in status `s` sends, if it has finished.
pub fn setup_signal(s: Status) -> (r: Option<Signal>)
    ensures
        r == setup_signal_of(s),
{
    match s {
        Status::Pending => None,
        Status::Completed => Some(Signal::SetupSucceeded),
        Status::Aborted(f) => Some(Signal::SetupFailed(f)),
    }
}

impl Phase {
    /// The phase after signal `g`.
    pub fn advance(self, g: Signal) -> (r: Phase)
        ensures
            r == next_phase(self, g),
    {
        match self {
            Phase::NotStarted => match g {
                Signal::SetupSucceeded => Phase::Running,
                Signal::SetupFailed(f) => Phase::Crashed(f),
                Signal::LoopFailed => Phase::Crashed(Fault::RunLoop),
                Signal::LoopExited => self,
            },
            Phase::Running => match g {
                Signal::LoopExited => Phase::Exited,
                Signal::LoopFailed => Phase::Crashed(Fault::RunLoop),
                _ => self,
            },
            _ => self,
        }
    }

    /// How the process ends: `None` while it has not ended.
    pub fn verdict(&self) -> (r: Option<Result<(), Fault>>)
        ensures
            r == verdict_of(*self),
    {
        match self {
            Phase::Exited => Some(Ok(())),
            Phase::Crashed(f) => Some(Err(*f)),
            _ => None,
        }
    }
}

proof fn lemma_exit_history(p: Phase, gs: Seq<Signal>)
    ensures
        after_signals(p, gs) == Phase::Exited && p == Phase::Running ==> exists|j: int|
            0 <= j < gs.len() && #[trigger] gs[j] == Signal::LoopExited,
        after_signals(p, gs) == Phase::Exited && p == Phase::NotStarted ==> exists|i: int, j: int|
            0 <= i < j < gs.len() && #[trigger] gs[i] == Signal::SetupSucceeded && #[trigger] gs[j]
                == Signal::LoopExited,
    decreases gs.len(),
{
    if gs.len() > 0 {
        let q = next_phase(p, gs[0]);
        let rest = gs.drop_first();
        lemma_exit_history(q, rest);
        lemma_ended_process_stays_ended(q, rest);
        if after_signals(p, gs) == Phase::Exited {
            if p == Phase::Running {
                if gs[0] != Signal::LoopExited {
                    assert(q == Phase::Running);
                    let j = choose|j: int| 0 <= j < rest.len() && #[trigger] rest[j] == Signal::LoopExited;
                    assert(gs[j + 1] == Signal::LoopExited);
                }
            } else if p == Phase::NotStarted {
                if gs[0] == Signal::SetupSucceeded {
                    let j = choose|j: int| 0 <= j < rest.len() && #[trigger] rest[j] == Signal::LoopExited;
                    assert(gs[0] == Signal::SetupSucceeded && gs[j + 1] == Signal::LoopExited);
                } else {
                    assert(q == Phase::NotStarted);
                    let (i, j) = choose|i: int, j: int|
                        0 <= i < j < rest.len() && #[trigger] rest[i] == Signal::SetupSucceeded
                            && #[trigger] rest[j] == Signal::LoopExited;
                    assert(gs[i + 1] == Signal::SetupSucceeded && gs[j + 1] == Signal::LoopExited);
                }
            }
        }
    }
}

/// Once the process has exited or crashed, nothing changes its fate.
pub proof fn lemma_ended_process_stays_ended(p: Phase, gs: Seq<Signal>)
    ensures
        verdict_of(p) is Some ==> after_signals(p, gs) == p,
    decreases gs.len(),
{
    if gs.len() > 0 {
        lemma_ended_process_stays_ended(next_phase(p, gs[0]), gs.drop_first());
    }
}

/// Start-up either ends abnormally with a diagnostic, or returns control
/// only after setup succeeded and, later, the event loop ended: a process
/// never exits cleanly before its setup hook has completed.
pub proof fn lemma_clean_exit_follows_setup(gs: Seq<Signal>)
    ensures
        after_signals(Phase::NotStarted, gs) == Phase::Exited ==> exists|i: int, j: int|
            0 <= i < j < gs.len() && #[trigger] gs[i] == Signal::SetupSucceeded && #[trigger] gs[j]
                == Signal::LoopExited,
{
    lemma_exit_history(Phase::NotStarted, gs);
}

} // verus!

//! Terminal status of a child process, and how a wait result maps to it.

use vstd::prelude::*;

verus! {

/// How a child process ended. Produced exactly once per child.
#[derive(Debug, Clone, Copy, PartialEq, Eq, Structural)]
pub enum XStatus {
    /// Normal termination with the given exit code.
    Exited(i32),
    /// Termination by the signal with the given number.
    Signaled(i32),
}

/// What the operating system reported for a waited child, as plain values.
///
/// The first field of every variant but `StillAlive` is the process id the
/// report is about.
#[derive(Debug, Clone, Copy, PartialEq, Eq, Structural)]
pub enum WaitOutcome {
    /// The child returned from `main` or called `exit`; the second field is the code.
    Exited(i32, i32),
    /// The child was killed by the signal in the second field; the third
    /// field says whether a core was dumped.
    Signaled(i32, i32, bool),
    /// The child is stopped by the signal in the second field.
    Stopped(i32, i32),
    /// The traced child was stopped by a trace event.
    PtraceEvent(i32, i32, i32),
    /// The traced child was stopped at a system call.
    PtraceSyscall(i32),
    /// The stopped child was resumed.
    Continued(i32),
    /// Nothing changed yet.
    StillAlive,
}

/// A fault that ends the event sequence of a child without a status.
#[derive(Debug, Clone, Copy, PartialEq, Eq, Structural)]
pub enum StreamError {
    /// The wait itself failed with the given error number: nothing more can
    /// be learned of the child.
    WaitFailure(i32),
    /// The wait reported something other than a normal exit or a death by
    /// signal, which a single child without job control never does.
    UnexpectedChildState(WaitOutcome),
}

impl XStatus {
    /// A run succeeded exactly when the child exited normally with code zero.
    pub open spec fn spec_is_success(self) -> bool {
        self == XStatus::Exited(0)
    }

    /// Whether the child exited normally with code zero.
    #[verifier::when_used_as_spec(spec_is_success)]
    pub fn is_success(self) -> (ok: bool)
        ensures
            ok == self.spec_is_success(),
    {
        match self {
            XStatus::Exited(code) => code == 0,
            XStatus::Signaled(_) => false,
        }
    }

    /// The exit code of a normal termination.
    pub open spec fn spec_code(self) -> Option<i32> {
        match self {
            XStatus::Exited(code) => Some(code),
            XStatus::Signaled(_) => None,
        }
    }

    /// The exit code, if the child exited normally. A signal number is never
    /// handed out as an exit code.
    #[verifier::when_used_as_spec(spec_code)]
    pub fn code(self) -> (code: Option<i32>)
        ensures
            code == self.spec_code(),
    {
        match self {
            XStatus::Exited(code) => Some(code),
            XStatus::Signaled(_) => None,
        }
    }

    /// The number of the signal that killed the child.
    pub open spec fn spec_signal(self) -> Option<i32> {
        match self {
            XStatus::Exited(_) => None,
            XStatus::Signaled(signal) => Some(signal),
        }
    }

    /// The signal number, if the child was killed by a signal.
    #[verifier::when_used_as_spec(spec_signal)]
    pub fn signal(self) -> (signal: Option<i32>)
        ensures
            signal == self.spec_signal(),
    {
        match self {
            XStatus::Exited(_) => None,
            XStatus::Signaled(signal) => Some(signal),
        }
    }
}

/// The status that a wait result stands for: a normal exit and a death by
/// signal are terminal, a failed wait and every other report are faults.
pub open spec fn classify_spec(waited: Result<WaitOutcome, i32>) -> Result<XStatus, StreamError> {
    match waited {
        Ok(WaitOutcome::Exited(_, code)) => Ok(XStatus::Exited(code)),
        Ok(WaitOutcome::Signaled(_, signal, _)) => Ok(XStatus::Signaled(signal)),
        Ok(other) => Err(StreamError::UnexpectedChildState(other)),
        Err(errno) => Err(StreamError::WaitFailure(errno)),
    }
}

/// Maps the result of the blocking wait to the terminal status of the child,
/// or to the fault that ends its event sequence.
pub fn classify(waited: Result<WaitOutcome, i32>) -> (r: Result<XStatus, StreamError>)
    ensures
        r == classify_spec(waited),
{
    match waited {
        Ok(WaitOutcome::Exited(_, code)) => Ok(XStatus::Exited(code)),
        Ok(WaitOutcome::Signaled(_, signal, _)) => Ok(XStatus::Signaled(signal)),
        Ok(other) => Err(StreamError::UnexpectedChildState(other)),
        Err(errno) => Err(StreamError::WaitFailure(errno)),
    }
}

/// A normal exit and a death by signal stay apart: the code of one is never
/// the signal of the other, and exactly one of the two is present.
pub proof fn lemma_exit_and_signal_distinct(status: XStatus)
    ensures
        status.spec_code() is Some <==> status.spec_signal() is None,
        forall|code: i32, signal: i32| XStatus::Exited(code) != XStatus::Signaled(signal),
{
}

} // verus!

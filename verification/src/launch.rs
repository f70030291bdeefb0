//! The launch of a child: two pseudo-terminal pairs, a fork, and what each
//! side of the fork does with the four descriptors.
//!
//! The launch is a state machine. Its driver performs each action outside
//! and reports what came of it; the machine decides what is done next, what
//! is closed when something fails, and what the child does. All that the
//! child does is fixed before the fork, as plain numbers.

use crate::command::{ExecImage, ExecImageView, SpawnError};
use crate::status::{StreamError, WaitOutcome, XStatus};
use crate::stream::{classify_child_spec, HandleView, XChildHandle};
use vstd::prelude::*;

verus! {

/// The descriptor of the standard output of a process.
pub const STDOUT_FILENO: i32 = 1;

/// The descriptor of the standard error of a process.
pub const STDERR_FILENO: i32 = 2;

/// The code with which the child ends itself when the program cannot be run.
pub const EXEC_FAILURE_CODE: i32 = 1;

/// The two descriptors of one pseudo-terminal.
#[derive(Debug, Clone, Copy, PartialEq, Eq, Structural)]
pub struct PtyPair {
    /// The side that the parent reads.
    pub master: i32,
    /// The side that the child writes to, and takes for a terminal.
    pub slave: i32,
}

/// One thing that the child does between the fork and the new program.
#[derive(Debug, Clone, Copy, PartialEq, Eq, Structural)]
pub enum ChildStep {
    /// Close the descriptor.
    Close(i32),
    /// Make the second descriptor a duplicate of the first.
    Dup2(i32, i32),
    /// Replace the process image by the program. Only a failure returns.
    Exec,
    /// End the process with the code, at once.
    Exit(i32),
}

/// All that the child does, in this order. It holds numbers only: the child
/// follows it without allocating and without taking a lock.
#[derive(Debug, Clone, Copy, PartialEq, Eq, Structural)]
pub struct ChildScript {
    /// The master descriptor of the pair for standard output: closed first.
    pub stdout_master: i32,
    /// The master descriptor of the pair for standard error: closed second.
    pub stderr_master: i32,
    /// The slave descriptor that becomes standard output.
    pub stdout_slave: i32,
    /// The slave descriptor that becomes standard error.
    pub stderr_slave: i32,
    /// The code with which the child ends itself if the program cannot be run.
    pub exit_code: i32,
}

impl ChildScript {
    /// The steps of the child: both masters are closed, each slave is
    /// duplicated onto its standard stream, the program is run, and where
    /// that fails the child ends itself.
    pub open spec fn steps(self) -> Seq<ChildStep> {
        seq![
            ChildStep::Close(self.stdout_master),
            ChildStep::Close(self.stderr_master),
            ChildStep::Dup2(self.stdout_slave, STDOUT_FILENO),
            ChildStep::Dup2(self.stderr_slave, STDERR_FILENO),
            ChildStep::Exec,
            ChildStep::Exit(self.exit_code),
        ]
    }

    /// The step of the child at `index`, or nothing behind the last.
    pub fn step(&self, index: usize) -> (r: Option<ChildStep>)
        ensures
            r == if index < self.steps().len() {
                Some(self.steps()[index as int])
            } else {
                None
            },
    {
        if index == 0 {
            Some(ChildStep::Close(self.stdout_master))
        } else if index == 1 {
            Some(ChildStep::Close(self.stderr_master))
        } else if index == 2 {
            Some(ChildStep::Dup2(self.stdout_slave, STDOUT_FILENO))
        } else if index == 3 {
            Some(ChildStep::Dup2(self.stderr_slave, STDERR_FILENO))
        } else if index == 4 {
            Some(ChildStep::Exec)
        } else if index == 5 {
            Some(ChildStep::Exit(self.exit_code))
        } else {
            None
        }
    }
}

/// The script of the child for the two pairs.
pub open spec fn child_script(stdout: PtyPair, stderr: PtyPair) -> ChildScript {
    ChildScript {
        stdout_master: stdout.master,
        stderr_master: stderr.master,
        stdout_slave: stdout.slave,
        stderr_slave: stderr.slave,
        exit_code: EXEC_FAILURE_CODE,
    }
}

/// How far a launch has come.
#[derive(Debug, Clone, Copy, PartialEq, Eq, Structural)]
pub enum LaunchState {
    /// Nothing was asked for yet.
    Idle,
    /// The pair for standard output was asked for.
    AwaitStdoutPty,
    /// The pair for standard output is open, the pair for standard error
    /// was asked for.
    AwaitStderrPty(PtyPair),
    /// Both pairs are open, standard output first, and the fork was asked for.
    AwaitFork(PtyPair, PtyPair),
    /// The launch has ended, with a child or with an error.
    Done,
}

/// What the driver reports.
#[derive(Debug, Clone, Copy, PartialEq, Eq, Structural)]
pub enum LaunchEvent {
    /// The launch is to begin.
    Begin,
    /// A pseudo-terminal pair was opened.
    PtyOpened(PtyPair),
    /// No pseudo-terminal pair could be opened; the field is the error number.
    PtyFailed(i32),
    /// The fork succeeded, and this is the parent; the field is the process
    /// id of the child.
    Forked(i32),
    /// The fork failed; the field is the error number.
    ForkFailed(i32),
}

/// What the driver is to do next.
#[derive(Debug)]
pub enum LaunchAction {
    /// Open a pseudo-terminal pair of default size and attributes, and keep
    /// both descriptors open. Report `PtyOpened` or `PtyFailed`.
    OpenPty,
    /// Fork. The child follows the script and never reports; the parent
    /// reports `Forked` or `ForkFailed`.
    Fork(ChildScript),
    /// The child runs. Close the two slave descriptors, then hand out the
    /// handle.
    Spawned { close_stdout_slave: i32, close_stderr_slave: i32, handle: XChildHandle },
    /// No child came to be. Close the descriptors, then report the error.
    Failed { close: Vec<i32>, error: SpawnError },
    /// The report did not answer what was asked. Nothing is to be done, and
    /// the launch stands where it stood.
    Unexpected,
}

/// An action as plain values.
pub enum LaunchActionView {
    OpenPty,
    Fork(ChildScript),
    Spawned { close_stdout_slave: i32, close_stderr_slave: i32, handle: HandleView },
    Failed { close: Seq<i32>, error: SpawnError },
    Unexpected,
}

impl View for LaunchAction {
    type V = LaunchActionView;

    open spec fn view(&self) -> LaunchActionView {
        match self {
            LaunchAction::OpenPty => LaunchActionView::OpenPty,
            LaunchAction::Fork(script) => LaunchActionView::Fork(*script),
            LaunchAction::Spawned { close_stdout_slave, close_stderr_slave, handle } =>
                LaunchActionView::Spawned {
                    close_stdout_slave: *close_stdout_slave,
                    close_stderr_slave: *close_stderr_slave,
                    handle: handle@,
                },
            LaunchAction::Failed { close, error } => LaunchActionView::Failed {
                close: close@,
                error: *error,
            },
            LaunchAction::Unexpected => LaunchActionView::Unexpected,
        }
    }
}

/// The state that follows `state` on `event`, and the action that is due.
///
/// The pair for standard output is opened first, then the pair for
/// standard error, then the process is forked. When the second pair cannot
/// be opened the first is closed again; when the fork fails both are. In
/// the parent of a successful fork the slaves are closed and the masters
/// go to the handle.
pub open spec fn launch_step(state: LaunchState, event: LaunchEvent) -> (
    LaunchState,
    LaunchActionView,
) {
    match (state, event) {
        (LaunchState::Idle, LaunchEvent::Begin) => (
            LaunchState::AwaitStdoutPty,
            LaunchActionView::OpenPty,
        ),
        (LaunchState::AwaitStdoutPty, LaunchEvent::PtyOpened(stdout)) => (
            LaunchState::AwaitStderrPty(stdout),
            LaunchActionView::OpenPty,
        ),
        (LaunchState::AwaitStdoutPty, LaunchEvent::PtyFailed(errno)) => (
            LaunchState::Done,
            LaunchActionView::Failed {
                close: Seq::empty(),
                error: SpawnError::AllocationFailure(errno),
            },
        ),
        (LaunchState::AwaitStderrPty(stdout), LaunchEvent::PtyOpened(stderr)) => (
            LaunchState::AwaitFork(stdout, stderr),
            LaunchActionView::Fork(child_script(stdout, stderr)),
        ),
        (LaunchState::AwaitStderrPty(stdout), LaunchEvent::PtyFailed(errno)) => (
            LaunchState::Done,
            LaunchActionView::Failed {
                close: seq![stdout.master, stdout.slave],
                error: SpawnError::AllocationFailure(errno),
            },
        ),
        (LaunchState::AwaitFork(stdout, stderr), LaunchEvent::Forked(pid)) => (
            LaunchState::Done,
            LaunchActionView::Spawned {
                close_stdout_slave: stdout.slave,
                close_stderr_slave: stderr.slave,
                handle: HandleView { pid, stdout: stdout.master, stderr: stderr.master },
            },
        ),
        (LaunchState::AwaitFork(stdout, stderr), LaunchEvent::ForkFailed(errno)) => (
            LaunchState::Done,
            LaunchActionView::Failed {
                close: seq![stdout.master, stdout.slave, stderr.master, stderr.slave],
                error: SpawnError::ForkFailure(errno),
            },
        ),
        _ => (state, LaunchActionView::Unexpected),
    }
}

/// A launch in progress: the buffers of the program, and how far it has come.
#[derive(Debug)]
pub struct Launch {
    image: ExecImage,
    state: LaunchState,
}

/// A launch as plain values.
pub struct LaunchView {
    pub image: ExecImageView,
    pub state: LaunchState,
}

impl LaunchView {
    /// A launch of which nothing was asked for yet.
    pub open spec fn begin(image: ExecImageView) -> LaunchView {
        LaunchView { image, state: LaunchState::Idle }
    }
}

impl View for Launch {
    type V = LaunchView;

    closed spec fn view(&self) -> LaunchView {
        LaunchView { image: self.image@, state: self.state }
    }
}

impl Launch {
    /// A launch of the program in `image`, of which nothing was asked for yet.
    pub fn new(image: ExecImage) -> (launch: Launch)
        ensures
            launch@ == LaunchView::begin(image@),
    {
        Launch { image, state: LaunchState::Idle }
    }

    /// The buffers that the child is run from. They do not change during
    /// the launch, so what the child needs of them can be made ready before
    /// the fork.
    pub fn image(&self) -> (image: &ExecImage)
        ensures
            image@ == self@.image,
    {
        &self.image
    }

    /// How far the launch has come.
    pub fn state(&self) -> (state: LaunchState)
        ensures
            state == self@.state,
    {
        self.state
    }

    /// Takes the report of the driver and says what is to be done next.
    pub fn step(&mut self, event: LaunchEvent) -> (action: LaunchAction)
        ensures
            final(self)@.image == old(self)@.image,
            (final(self)@.state, action@) == launch_step(old(self)@.state, event),
    {
        match (self.state, event) {
            (LaunchState::Idle, LaunchEvent::Begin) => {
                self.state = LaunchState::AwaitStdoutPty;
                LaunchAction::OpenPty
            },
            (LaunchState::AwaitStdoutPty, LaunchEvent::PtyOpened(stdout)) => {
                self.state = LaunchState::AwaitStderrPty(stdout);
                LaunchAction::OpenPty
            },
            (LaunchState::AwaitStdoutPty, LaunchEvent::PtyFailed(errno)) => {
                self.state = LaunchState::Done;
                LaunchAction::Failed {
                    close: Vec::new(),
                    error: SpawnError::AllocationFailure(errno),
                }
            },
            (LaunchState::AwaitStderrPty(stdout), LaunchEvent::PtyOpened(stderr)) => {
                self.state = LaunchState::AwaitFork(stdout, stderr);
                LaunchAction::Fork(
                    ChildScript {
                        stdout_master: stdout.master,
                        stderr_master: stderr.master,
                        stdout_slave: stdout.slave,
                        stderr_slave: stderr.slave,
                        exit_code: EXEC_FAILURE_CODE,
                    },
                )
            },
            (LaunchState::AwaitStderrPty(stdout), LaunchEvent::PtyFailed(errno)) => {
                self.state = LaunchState::Done;
                let mut close: Vec<i32> = Vec::new();
                close.push(stdout.master);
                close.push(stdout.slave);
                proof {
                    assert(close@ =~= seq![stdout.master, stdout.slave]);
                }
                LaunchAction::Failed { close, error: SpawnError::AllocationFailure(errno) }
            },
            (LaunchState::AwaitFork(stdout, stderr), LaunchEvent::Forked(pid)) => {
                self.state = LaunchState::Done;
                LaunchAction::Spawned {
                    close_stdout_slave: stdout.slave,
                    close_stderr_slave: stderr.slave,
                    handle: XChildHandle::new(pid, stdout.master, stderr.master),
                }
            },
            (LaunchState::AwaitFork(stdout, stderr), LaunchEvent::ForkFailed(errno)) => {
                self.state = LaunchState::Done;
                let mut close: Vec<i32> = Vec::new();
                close.push(stdout.master);
                close.push(stdout.slave);
                close.push(stderr.master);
                close.push(stderr.slave);
                proof {
                    assert(close@ =~= seq![
                        stdout.master,
                        stdout.slave,
                        stderr.master,
                        stderr.slave,
                    ]);
                }
                LaunchAction::Failed { close, error: SpawnError::ForkFailure(errno) }
            },
            _ => LaunchAction::Unexpected,
        }
    }
}

/// A program that cannot be run is no error of the launch. The child ends
/// itself as the last step of its script, with a code that is not zero, and
/// the parent learns of it as it learns of any exit: the wait for the child
/// gives a status that is no success.
pub proof fn lemma_exec_failure_is_a_status(stdout: PtyPair, stderr: PtyPair, pid: i32)
    ensures
        ({
            let script = child_script(stdout, stderr);
            let waited = Ok::<WaitOutcome, i32>(WaitOutcome::Exited(pid, script.exit_code));
            &&& script.steps().last() == ChildStep::Exit(script.exit_code)
            &&& script.steps()[script.steps().len() - 2] == ChildStep::Exec
            &&& script.exit_code != 0
            &&& classify_child_spec(pid, waited) == Ok::<XStatus, StreamError>(
                XStatus::Exited(script.exit_code),
            )
            &&& !XStatus::Exited(script.exit_code).spec_is_success()
        }),
{
}

} // verus!

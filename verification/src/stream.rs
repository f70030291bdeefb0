//! The event sequence of a running child: lines of its two output streams,
//! merged, and its status at the end.
//!
//! The merge is a state machine. Its driver polls what the machine names,
//! readers before the exit watcher, and reports what came; the machine
//! says what is handed to the consumer. The exit of the child does not end
//! the sequence: both readers are drained first.

use crate::command::StdioType;
use crate::status::{classify_spec, StreamError, WaitOutcome, XStatus};
use vstd::prelude::*;

verus! {

/// The number of the signal that ends a process at once.
pub const SIGKILL: i32 = 9;

/// A running child: its process id and the master descriptors of the
/// pseudo-terminals behind its standard output and standard error.
#[derive(Debug)]
pub struct XChildHandle {
    pid: i32,
    stdout: i32,
    stderr: i32,
}

/// A handle as plain values.
pub struct HandleView {
    pub pid: i32,
    pub stdout: i32,
    pub stderr: i32,
}

impl View for XChildHandle {
    type V = HandleView;

    closed spec fn view(&self) -> HandleView {
        HandleView { pid: self.pid, stdout: self.stdout, stderr: self.stderr }
    }
}

impl HandleView {
    /// The stream that the descriptor belongs to, if it is one of the
    /// handle's.
    pub open spec fn tag_of(self, fd: i32) -> Option<StdioType> {
        if fd == self.stdout {
            Some(StdioType::Stdout)
        } else if fd == self.stderr {
            Some(StdioType::Stderr)
        } else {
            None
        }
    }

    /// The descriptor behind the stream.
    pub open spec fn fd_of(self, tag: StdioType) -> i32 {
        match tag {
            StdioType::Stdout => self.stdout,
            StdioType::Stderr => self.stderr,
        }
    }

    /// Whether the descriptor is one of the handle's.
    pub open spec fn owns(self, fd: i32) -> bool {
        fd == self.stdout || fd == self.stderr
    }
}

/// The status that the wait result stands for, for the child with the
/// process id `pid`: a report about another process is a fault like any
/// report that is neither a normal exit nor a death by signal.
pub open spec fn classify_child_spec(pid: i32, waited: Result<WaitOutcome, i32>) -> Result<
    XStatus,
    StreamError,
> {
    match waited {
        Ok(WaitOutcome::Exited(p, _)) if p != pid => Err(
            StreamError::UnexpectedChildState(waited->Ok_0),
        ),
        Ok(WaitOutcome::Signaled(p, _, _)) if p != pid => Err(
            StreamError::UnexpectedChildState(waited->Ok_0),
        ),
        _ => classify_spec(waited),
    }
}

/// Maps the result of the wait for the child `pid` to its status, or to the
/// fault that ends its event sequence.
pub fn classify_child(pid: i32, waited: Result<WaitOutcome, i32>) -> (r: Result<
    XStatus,
    StreamError,
>)
    ensures
        r == classify_child_spec(pid, waited),
{
    match waited {
        Ok(WaitOutcome::Exited(p, code)) => if p == pid {
            Ok(XStatus::Exited(code))
        } else {
            Err(StreamError::UnexpectedChildState(WaitOutcome::Exited(p, code)))
        },
        Ok(WaitOutcome::Signaled(p, signal, core)) => if p == pid {
            Ok(XStatus::Signaled(signal))
        } else {
            Err(StreamError::UnexpectedChildState(WaitOutcome::Signaled(p, signal, core)))
        },
        Ok(other) => Err(StreamError::UnexpectedChildState(other)),
        Err(errno) => Err(StreamError::WaitFailure(errno)),
    }
}

/// How far the event sequence has come.
#[derive(Debug, Clone, Copy, PartialEq, Eq, Structural)]
pub enum Phase {
    /// The child has not been seen to end: lines are merged.
    Merging,
    /// The child has ended with the status, and the readers are drained.
    Draining(XStatus),
    /// Both readers are drained, the descriptors are closed and the status
    /// was handed out.
    Finished(XStatus),
    /// The wait went wrong, and the fault was handed out.
    Failed(StreamError),
    /// The sequence was given up, and what it held was released.
    Terminated,
}

/// Something that the driver polls.
#[derive(Debug, Clone, Copy, PartialEq, Eq, Structural)]
pub enum Source {
    /// The line reader of the descriptor.
    Reader(i32),
    /// The wait for the process, which runs apart from the readers.
    ExitWatcher(i32),
}

/// What the driver reports.
#[derive(Debug)]
pub enum StreamEvent {
    /// The reader of the descriptor read a line.
    Line(i32, String),
    /// The reader of the descriptor read a line that is no valid text. The
    /// fault is local to that line.
    Undecodable(i32),
    /// The reader of the descriptor has no more to give.
    Closed(i32),
    /// The wait for the child has returned: a report, or an error number.
    Exited(Result<WaitOutcome, i32>),
}

/// An event as plain values.
pub enum EventView {
    Line(i32, Seq<char>),
    Undecodable(i32),
    Closed(i32),
    Exited(Result<WaitOutcome, i32>),
}

impl View for StreamEvent {
    type V = EventView;

    open spec fn view(&self) -> EventView {
        match self {
            StreamEvent::Line(fd, text) => EventView::Line(*fd, text@),
            StreamEvent::Undecodable(fd) => EventView::Undecodable(*fd),
            StreamEvent::Closed(fd) => EventView::Closed(*fd),
            StreamEvent::Exited(waited) => EventView::Exited(*waited),
        }
    }
}

/// What the consumer is handed, and what the driver is to do.
#[derive(Debug)]
pub enum StreamAction {
    /// Nothing is handed out. Poll again.
    Idle,
    /// The line is handed out, with the stream that it came from.
    Output(StdioType, String),
    /// Close the two descriptors, then hand out the status: it is the last
    /// element of the sequence.
    Finish { close_stdout: i32, close_stderr: i32, status: XStatus },
    /// Hand out the fault: it ends the sequence. The descriptors stay open
    /// until the sequence is given up.
    Abort(StreamError),
}

/// An action as plain values.
pub enum ActionView {
    Idle,
    Output(StdioType, Seq<char>),
    Finish { close_stdout: i32, close_stderr: i32, status: XStatus },
    Abort(StreamError),
}

impl View for StreamAction {
    type V = ActionView;

    open spec fn view(&self) -> ActionView {
        match self {
            StreamAction::Idle => ActionView::Idle,
            StreamAction::Output(tag, text) => ActionView::Output(*tag, text@),
            StreamAction::Finish { close_stdout, close_stderr, status } => ActionView::Finish {
                close_stdout: *close_stdout,
                close_stderr: *close_stderr,
                status: *status,
            },
            StreamAction::Abort(error) => ActionView::Abort(*error),
        }
    }
}

/// What is to be done when the sequence is given up.
#[derive(Debug, Clone, Copy, PartialEq, Eq, Structural)]
pub enum Teardown {
    /// The child may still run. Send it the signal, wait for it once (through
    /// the exit watcher), then close the two descriptors.
    KillReapClose { pid: i32, signal: i32, stdout: i32, stderr: i32 },
    /// The child was waited for already. Close the two descriptors.
    Close { stdout: i32, stderr: i32 },
    /// Nothing is held any more.
    Nothing,
}

/// The state of a sequence as plain values.
pub struct MuxState {
    /// The child whose output is merged.
    pub handle: HandleView,
    /// Whether the reader of standard output may still give a line.
    pub stdout_open: bool,
    /// Whether the reader of standard error may still give a line.
    pub stderr_open: bool,
    /// How far the sequence has come.
    pub phase: Phase,
}

impl MuxState {
    /// The state in which the sequence of a child begins.
    pub open spec fn begin(handle: HandleView) -> MuxState {
        MuxState { handle, stdout_open: true, stderr_open: true, phase: Phase::Merging }
    }

    /// Whether the sequence still hands out anything.
    pub open spec fn live(self) -> bool {
        self.phase is Merging || self.phase is Draining
    }

    /// Whether the two descriptors are still held, and open.
    pub open spec fn holds_descriptors(self) -> bool {
        self.phase is Merging || self.phase is Draining || self.phase is Failed
    }

    /// Whether the reader of the stream may still give a line.
    pub open spec fn is_open(self, tag: StdioType) -> bool {
        match tag {
            StdioType::Stdout => self.stdout_open,
            StdioType::Stderr => self.stderr_open,
        }
    }

    /// The state in which the reader of the stream gives no more.
    pub open spec fn closed(self, tag: StdioType) -> MuxState {
        match tag {
            StdioType::Stdout => MuxState { stdout_open: false, ..self },
            StdioType::Stderr => MuxState { stderr_open: false, ..self },
        }
    }

    /// What the driver polls, in the order in which it asks: the open
    /// readers first, standard output before standard error, and the exit
    /// watcher last and only while the child has not been seen to end.
    pub open spec fn poll_order(self) -> Seq<Source> {
        let stdout = if self.stdout_open {
            seq![Source::Reader(self.handle.stdout)]
        } else {
            Seq::empty()
        };
        let stderr = if self.stderr_open {
            seq![Source::Reader(self.handle.stderr)]
        } else {
            Seq::empty()
        };
        match self.phase {
            Phase::Merging => stdout + stderr + seq![Source::ExitWatcher(self.handle.pid)],
            Phase::Draining(_) => stdout + stderr,
            _ => Seq::empty(),
        }
    }

    /// Whether the reader of the descriptor is polled in this state: the
    /// sequence is live, and the descriptor is that of an open reader.
    pub open spec fn polls_reader(self, fd: i32) -> bool {
        &&& self.live()
        &&& (self.stdout_open && fd == self.handle.stdout) || (self.stderr_open && fd
            == self.handle.stderr)
    }

    /// Whether the exit watcher is polled in this state: only while the
    /// child has not been seen to end, so that it is waited for once.
    pub open spec fn polls_exit(self) -> bool {
        self.phase is Merging
    }

    /// Whether the event comes from a source that is polled in this state.
    pub open spec fn expects(self, event: EventView) -> bool {
        match event {
            EventView::Line(fd, _) => self.polls_reader(fd),
            EventView::Undecodable(fd) => self.polls_reader(fd),
            EventView::Closed(fd) => self.polls_reader(fd),
            EventView::Exited(_) => self.polls_exit(),
        }
    }

    /// Ends the sequence if the child has ended and both readers are drained.
    pub open spec fn settle(self) -> (MuxState, ActionView) {
        match self.phase {
            Phase::Draining(status) if !self.stdout_open && !self.stderr_open => (
                MuxState { phase: Phase::Finished(status), ..self },
                ActionView::Finish {
                    close_stdout: self.handle.stdout,
                    close_stderr: self.handle.stderr,
                    status,
                },
            ),
            _ => (self, ActionView::Idle),
        }
    }

    /// The state that follows on the event, and the action that is due.
    ///
    /// A line from an open reader of the handle is handed out, before and
    /// after the child has ended. A line that is no valid text is dropped.
    /// The end of the child is kept until both readers are drained. A
    /// sequence that has ended takes nothing and hands out nothing.
    pub open spec fn step(self, event: EventView) -> (MuxState, ActionView) {
        if !self.live() {
            (self, ActionView::Idle)
        } else {
            match event {
                EventView::Line(fd, text) => match self.handle.tag_of(fd) {
                    Some(tag) if self.is_open(tag) => (self, ActionView::Output(tag, text)),
                    _ => (self, ActionView::Idle),
                },
                EventView::Undecodable(_) => (self, ActionView::Idle),
                EventView::Closed(fd) => match self.handle.tag_of(fd) {
                    Some(tag) => self.closed(tag).settle(),
                    None => (self, ActionView::Idle),
                },
                EventView::Exited(waited) => match self.phase {
                    Phase::Merging => match classify_child_spec(self.handle.pid, waited) {
                        Ok(status) => (MuxState { phase: Phase::Draining(status), ..self }).settle(),
                        Err(error) => (
                            MuxState { phase: Phase::Failed(error), ..self },
                            ActionView::Abort(error),
                        ),
                    },
                    _ => (self, ActionView::Idle),
                },
            }
        }
    }

    /// The state after the sequence was given up, and what is to be done:
    /// a child that was not waited for is killed and waited for, descriptors
    /// that are still open are closed, and nothing is done twice.
    pub open spec fn teardown(self) -> (MuxState, Teardown) {
        let after = MuxState { phase: Phase::Terminated, ..self };
        match self.phase {
            Phase::Merging => (
                after,
                Teardown::KillReapClose {
                    pid: self.handle.pid,
                    signal: SIGKILL,
                    stdout: self.handle.stdout,
                    stderr: self.handle.stderr,
                },
            ),
            Phase::Draining(_) => (
                after,
                Teardown::Close { stdout: self.handle.stdout, stderr: self.handle.stderr },
            ),
            Phase::Failed(_) => (
                after,
                Teardown::Close { stdout: self.handle.stdout, stderr: self.handle.stderr },
            ),
            _ => (self, Teardown::Nothing),
        }
    }
}

/// The merge of the two output streams of one child with its exit.
#[derive(Debug)]
pub struct Multiplexer {
    pid: i32,
    stdout: i32,
    stderr: i32,
    stdout_open: bool,
    stderr_open: bool,
    phase: Phase,
}

impl View for Multiplexer {
    type V = MuxState;

    closed spec fn view(&self) -> MuxState {
        MuxState {
            handle: HandleView { pid: self.pid, stdout: self.stdout, stderr: self.stderr },
            stdout_open: self.stdout_open,
            stderr_open: self.stderr_open,
            phase: self.phase,
        }
    }
}

impl XChildHandle {
    /// The handle of the child `pid`, whose standard output and standard
    /// error are read from the descriptors `stdout` and `stderr`.
    pub fn new(pid: i32, stdout: i32, stderr: i32) -> (handle: XChildHandle)
        ensures
            handle@ == (HandleView { pid, stdout, stderr }),
    {
        XChildHandle { pid, stdout, stderr }
    }

    /// The process id of the child.
    pub fn pid(&self) -> (pid: i32)
        ensures
            pid == self@.pid,
    {
        self.pid
    }

    /// The descriptor from which the standard output of the child is read.
    pub fn stdout(&self) -> (fd: i32)
        ensures
            fd == self@.stdout,
    {
        self.stdout
    }

    /// The descriptor from which the standard error of the child is read.
    pub fn stderr(&self) -> (fd: i32)
        ensures
            fd == self@.stderr,
    {
        self.stderr
    }

    /// The event sequence of the child, at its beginning. The handle goes
    /// into the sequence, and the two descriptors with it: only the
    /// sequence closes them. A sequence that is not driven to its end has
    /// to be given up with `terminate`.
    pub fn stream(self) -> (mux: Multiplexer)
        ensures
            mux@ == MuxState::begin(self@),
    {
        Multiplexer {
            pid: self.pid,
            stdout: self.stdout,
            stderr: self.stderr,
            stdout_open: true,
            stderr_open: true,
            phase: Phase::Merging,
        }
    }
}

impl Multiplexer {
    /// How far the sequence has come.
    pub fn phase(&self) -> (phase: Phase)
        ensures
            phase == self@.phase,
    {
        self.phase
    }

    /// What the driver is to poll, in the order in which it is to ask.
    pub fn poll(&self) -> (sources: Vec<Source>)
        ensures
            sources@ == self@.poll_order(),
    {
        let mut sources: Vec<Source> = Vec::new();
        let merging = match self.phase {
            Phase::Merging => true,
            Phase::Draining(_) => false,
            _ => {
                return sources;
            },
        };
        if self.stdout_open {
            sources.push(Source::Reader(self.stdout));
        }
        if self.stderr_open {
            sources.push(Source::Reader(self.stderr));
        }
        if merging {
            sources.push(Source::ExitWatcher(self.pid));
        }
        proof {
            assert(sources@ =~= self@.poll_order());
        }
        sources
    }

    /// Ends the sequence if the child has ended and both readers are drained.
    fn settle(&mut self) -> (action: StreamAction)
        ensures
            (final(self)@, action@) == old(self)@.settle(),
    {
        match self.phase {
            Phase::Draining(status) => {
                if !self.stdout_open && !self.stderr_open {
                    self.phase = Phase::Finished(status);
                    StreamAction::Finish {
                        close_stdout: self.stdout,
                        close_stderr: self.stderr,
                        status,
                    }
                } else {
                    StreamAction::Idle
                }
            },
            _ => StreamAction::Idle,
        }
    }

    /// Takes the report of the driver and says what is handed out.
    pub fn step(&mut self, event: StreamEvent) -> (action: StreamAction)
        ensures
            (final(self)@, action@) == old(self)@.step(event@),
    {
        match self.phase {
            Phase::Merging => {},
            Phase::Draining(_) => {},
            _ => {
                return StreamAction::Idle;
            },
        }
        match event {
            StreamEvent::Line(fd, text) => {
                if fd == self.stdout {
                    if self.stdout_open {
                        StreamAction::Output(StdioType::Stdout, text)
                    } else {
                        StreamAction::Idle
                    }
                } else if fd == self.stderr {
                    if self.stderr_open {
                        StreamAction::Output(StdioType::Stderr, text)
                    } else {
                        StreamAction::Idle
                    }
                } else {
                    StreamAction::Idle
                }
            },
            StreamEvent::Undecodable(_) => StreamAction::Idle,
            StreamEvent::Closed(fd) => {
                if fd == self.stdout {
                    self.stdout_open = false;
                    self.settle()
                } else if fd == self.stderr {
                    self.stderr_open = false;
                    self.settle()
                } else {
                    StreamAction::Idle
                }
            },
            StreamEvent::Exited(waited) => {
                match self.phase {
                    Phase::Merging => match classify_child(self.pid, waited) {
                        Ok(status) => {
                            self.phase = Phase::Draining(status);
                            self.settle()
                        },
                        Err(error) => {
                            self.phase = Phase::Failed(error);
                            StreamAction::Abort(error)
                        },
                    },
                    _ => StreamAction::Idle,
                }
            },
        }
    }

    /// Gives the sequence up and says what is left to release. This is the
    /// only way in which a sequence that was not driven to its end lets go
    /// of the child and of the descriptors.
    pub fn terminate(&mut self) -> (teardown: Teardown)
        ensures
            (final(self)@, teardown) == old(self)@.teardown(),
    {
        let teardown = match self.phase {
            Phase::Merging => Teardown::KillReapClose {
                pid: self.pid,
                signal: SIGKILL,
                stdout: self.stdout,
                stderr: self.stderr,
            },
            Phase::Draining(_) => Teardown::Close { stdout: self.stdout, stderr: self.stderr },
            Phase::Failed(_) => Teardown::Close { stdout: self.stdout, stderr: self.stderr },
            _ => {
                return Teardown::Nothing;
            },
        };
        self.phase = Phase::Terminated;
        teardown
    }
}

} // verus!

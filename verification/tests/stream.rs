use taskwrap::command::StdioType;
use taskwrap::status::{StreamError, WaitOutcome, XStatus};
use taskwrap::stream::{
    Multiplexer, Phase, Source, StreamAction, StreamEvent, Teardown, XChildHandle, SIGKILL,
};

const PID: i32 = 700;
const OUT: i32 = 10;
const ERR: i32 = 12;

fn mux() -> Multiplexer {
    XChildHandle::new(PID, OUT, ERR).stream()
}

fn line(fd: i32, text: &str) -> StreamEvent {
    StreamEvent::Line(fd, String::from(text))
}

fn exited(code: i32) -> StreamEvent {
    StreamEvent::Exited(Ok(WaitOutcome::Exited(PID, code)))
}

/// Feeds the events and collects what is handed out: lines as they are, the
/// status or the fault at the end.
fn drive(m: &mut Multiplexer, events: Vec<StreamEvent>) -> (Vec<(StdioType, String)>, Vec<String>) {
    let mut lines = Vec::new();
    let mut ends = Vec::new();
    for event in events {
        match m.step(event) {
            StreamAction::Idle => {}
            StreamAction::Output(tag, text) => {
                assert!(ends.is_empty());
                lines.push((tag, text));
            }
            StreamAction::Finish { close_stdout, close_stderr, status } => {
                assert_eq!((OUT, ERR), (close_stdout, close_stderr));
                ends.push(format!("{:?}", status));
            }
            StreamAction::Abort(error) => ends.push(format!("{:?}", error)),
        }
    }
    (lines, ends)
}

fn out(text: &str) -> (StdioType, String) {
    (StdioType::Stdout, String::from(text))
}

fn err(text: &str) -> (StdioType, String) {
    (StdioType::Stderr, String::from(text))
}

#[test]
fn a_sequence_begins_merging_and_polls_readers_before_the_exit() {
    let m = mux();
    assert_eq!(Phase::Merging, m.phase());
    assert_eq!(vec![Source::Reader(OUT), Source::Reader(ERR), Source::ExitWatcher(PID)], m.poll());
}

#[test]
fn lines_then_exit_zero() {
    let mut m = mux();
    let (lines, ends) = drive(
        &mut m,
        vec![
            line(OUT, "o1"),
            line(ERR, "e1"),
            line(OUT, "o2"),
            line(OUT, "o3"),
            line(ERR, "e2"),
            StreamEvent::Closed(OUT),
            StreamEvent::Closed(ERR),
            exited(0),
        ],
    );
    assert_eq!(vec![out("o1"), err("e1"), out("o2"), out("o3"), err("e2")], lines);
    assert_eq!(vec![String::from("Exited(0)")], ends);
    assert_eq!(Phase::Finished(XStatus::Exited(0)), m.phase());
    assert!(m.poll().is_empty());
}

#[test]
fn a_child_without_output() {
    let mut m = mux();
    let (lines, ends) =
        drive(&mut m, vec![exited(0), StreamEvent::Closed(ERR), StreamEvent::Closed(OUT)]);
    assert!(lines.is_empty());
    assert_eq!(vec![String::from("Exited(0)")], ends);
}

#[test]
fn killed_by_a_signal() {
    let mut m = mux();
    let (lines, ends) = drive(
        &mut m,
        vec![
            line(OUT, "working"),
            StreamEvent::Exited(Ok(WaitOutcome::Signaled(PID, 15, false))),
            StreamEvent::Closed(OUT),
            StreamEvent::Closed(ERR),
            line(OUT, "late"),
            StreamEvent::Closed(OUT),
            exited(0),
        ],
    );
    assert_eq!(vec![out("working")], lines);
    assert_eq!(vec![String::from("Signaled(15)")], ends);
    assert_eq!(Phase::Finished(XStatus::Signaled(15)), m.phase());
}

#[test]
fn the_last_line_is_not_lost_when_the_exit_is_seen_first() {
    let mut m = mux();
    assert!(matches!(m.step(line(OUT, "first")), StreamAction::Output(StdioType::Stdout, _)));
    assert!(matches!(m.step(exited(0)), StreamAction::Idle));
    assert_eq!(Phase::Draining(XStatus::Exited(0)), m.phase());
    assert_eq!(vec![Source::Reader(OUT), Source::Reader(ERR)], m.poll());
    let (lines, ends) = drive(
        &mut m,
        vec![
            line(OUT, "last words"),
            line(ERR, "last complaint"),
            StreamEvent::Closed(ERR),
            line(OUT, "really last"),
            StreamEvent::Closed(OUT),
        ],
    );
    assert_eq!(vec![out("last words"), err("last complaint"), out("really last")], lines);
    assert_eq!(vec![String::from("Exited(0)")], ends);
}

#[test]
fn a_closed_reader_is_polled_no_more() {
    let mut m = mux();
    assert!(matches!(m.step(StreamEvent::Closed(OUT)), StreamAction::Idle));
    assert_eq!(vec![Source::Reader(ERR), Source::ExitWatcher(PID)], m.poll());
    assert!(matches!(m.step(line(OUT, "ghost")), StreamAction::Idle));
    assert!(matches!(m.step(line(ERR, "real")), StreamAction::Output(StdioType::Stderr, _)));
    assert!(matches!(m.step(StreamEvent::Closed(ERR)), StreamAction::Idle));
    assert_eq!(vec![Source::ExitWatcher(PID)], m.poll());
    assert!(matches!(
        m.step(exited(4)),
        StreamAction::Finish { close_stdout: OUT, close_stderr: ERR, status: XStatus::Exited(4) }
    ));
}

#[test]
fn a_line_that_is_no_text_is_dropped_and_the_reader_goes_on() {
    let mut m = mux();
    let (lines, ends) = drive(
        &mut m,
        vec![
            line(OUT, "before"),
            StreamEvent::Undecodable(OUT),
            line(OUT, "after"),
            StreamEvent::Undecodable(ERR),
            line(ERR, "still here"),
        ],
    );
    assert_eq!(vec![out("before"), out("after"), err("still here")], lines);
    assert!(ends.is_empty());
    assert_eq!(Phase::Merging, m.phase());
    assert_eq!(3, m.poll().len());
}

#[test]
fn a_failed_wait_ends_the_sequence_with_a_fault() {
    let mut m = mux();
    assert!(matches!(
        m.step(StreamEvent::Exited(Err(10))),
        StreamAction::Abort(StreamError::WaitFailure(10))
    ));
    assert_eq!(Phase::Failed(StreamError::WaitFailure(10)), m.phase());
    assert!(m.poll().is_empty());
    assert!(matches!(m.step(line(OUT, "x")), StreamAction::Idle));
    assert!(matches!(m.step(exited(0)), StreamAction::Idle));
}

#[test]
fn a_stopped_child_ends_the_sequence_with_a_fault() {
    let mut m = mux();
    let stopped = WaitOutcome::Stopped(PID, 19);
    match m.step(StreamEvent::Exited(Ok(stopped))) {
        StreamAction::Abort(error) => assert_eq!(StreamError::UnexpectedChildState(stopped), error),
        other => panic!("{:?}", other),
    }
    assert_eq!(Phase::Failed(StreamError::UnexpectedChildState(stopped)), m.phase());
}

#[test]
fn nothing_follows_the_status() {
    let mut m = mux();
    drive(&mut m, vec![StreamEvent::Closed(OUT), StreamEvent::Closed(ERR), exited(0)]);
    let (lines, ends) = drive(
        &mut m,
        vec![
            line(OUT, "a"),
            line(ERR, "b"),
            StreamEvent::Closed(OUT),
            exited(1),
            StreamEvent::Exited(Err(3)),
            StreamEvent::Undecodable(ERR),
        ],
    );
    assert!(lines.is_empty());
    assert!(ends.is_empty());
    assert_eq!(Phase::Finished(XStatus::Exited(0)), m.phase());
}

#[test]
fn two_children_do_not_mix() {
    let mut a = XChildHandle::new(1, 10, 12).stream();
    let mut b = XChildHandle::new(2, 14, 16).stream();
    assert!(matches!(b.step(line(10, "for a")), StreamAction::Idle));
    assert!(matches!(b.step(line(12, "for a")), StreamAction::Idle));
    assert!(matches!(a.step(line(14, "for b")), StreamAction::Idle));
    assert!(matches!(a.step(StreamEvent::Closed(14)), StreamAction::Idle));
    assert!(matches!(a.step(StreamEvent::Closed(16)), StreamAction::Idle));
    assert_eq!(vec![Source::Reader(10), Source::Reader(12), Source::ExitWatcher(1)], a.poll());
    assert_eq!(vec![Source::Reader(14), Source::Reader(16), Source::ExitWatcher(2)], b.poll());
    match a.step(line(10, "for a")) {
        StreamAction::Output(tag, text) => assert_eq!((StdioType::Stdout, "for a"), (tag, text.as_str())),
        other => panic!("{:?}", other),
    }
    match b.step(line(16, "for b")) {
        StreamAction::Output(tag, text) => assert_eq!((StdioType::Stderr, "for b"), (tag, text.as_str())),
        other => panic!("{:?}", other),
    }
    assert!(matches!(
        a.step(StreamEvent::Exited(Ok(WaitOutcome::Exited(2, 0)))),
        StreamAction::Abort(StreamError::UnexpectedChildState(WaitOutcome::Exited(2, 0)))
    ));
}

#[test]
fn giving_up_a_running_child_kills_reaps_and_closes() {
    let mut m = mux();
    m.step(line(OUT, "x"));
    assert_eq!(
        Teardown::KillReapClose { pid: PID, signal: 9, stdout: OUT, stderr: ERR },
        m.terminate()
    );
    assert_eq!(9, SIGKILL);
    assert_eq!(Phase::Terminated, m.phase());
    assert_eq!(Teardown::Nothing, m.terminate());
    assert!(m.poll().is_empty());
    assert!(matches!(m.step(line(OUT, "y")), StreamAction::Idle));
}

#[test]
fn giving_up_a_child_that_has_ended_only_closes() {
    let mut m = mux();
    m.step(exited(0));
    assert_eq!(Teardown::Close { stdout: OUT, stderr: ERR }, m.terminate());
    assert_eq!(Teardown::Nothing, m.terminate());
    let mut m = mux();
    m.step(StreamEvent::Exited(Err(1)));
    assert_eq!(Teardown::Close { stdout: OUT, stderr: ERR }, m.terminate());
    assert_eq!(Teardown::Nothing, m.terminate());
}

#[test]
fn giving_up_a_finished_sequence_does_nothing() {
    let mut m = mux();
    drive(&mut m, vec![StreamEvent::Closed(OUT), StreamEvent::Closed(ERR), exited(0)]);
    assert_eq!(Teardown::Nothing, m.terminate());
    assert_eq!(Phase::Finished(XStatus::Exited(0)), m.phase());
}

//! Whole event sequences: what holds of every run of the merge.

use crate::command::StdioType;
use crate::stream::{classify_child_spec, ActionView, EventView, MuxState, Phase, Source};
use crate::status::{StreamError, WaitOutcome, XStatus};
use vstd::prelude::*;

verus! {

/// The state in which the merge is after the events, and the actions that
/// it answered them with, one for each event.
pub open spec fn run(state: MuxState, events: Seq<EventView>) -> (MuxState, Seq<ActionView>)
    decreases events.len(),
{
    if events.len() == 0 {
        (state, Seq::empty())
    } else {
        let (next, action) = state.step(events[0]);
        let (last, actions) = run(next, events.skip(1));
        (last, seq![action] + actions)
    }
}

/// Every event comes from a source that the merge polled when it came: the
/// driver reported nothing that it was not asked for.
pub open spec fn orderly(state: MuxState, events: Seq<EventView>) -> bool
    decreases events.len(),
{
    events.len() == 0 || (state.expects(events[0]) && orderly(
        state.step(events[0]).0,
        events.skip(1),
    ))
}

/// The lines among the events that were read from the two descriptors of
/// the state's handle, each with its stream, in the order in which they came.
pub open spec fn lines_read(state: MuxState, events: Seq<EventView>) -> Seq<
    (StdioType, Seq<char>),
>
    decreases events.len(),
{
    if events.len() == 0 {
        Seq::empty()
    } else {
        let rest = lines_read(state, events.skip(1));
        match events[0] {
            EventView::Line(fd, text) => match state.handle.tag_of(fd) {
                Some(tag) => seq![(tag, text)] + rest,
                None => rest,
            },
            _ => rest,
        }
    }
}

/// The lines among the actions that were handed to the consumer, each with
/// its stream, in the order in which they were handed out.
pub open spec fn lines_handed_out(actions: Seq<ActionView>) -> Seq<(StdioType, Seq<char>)>
    decreases actions.len(),
{
    if actions.len() == 0 {
        Seq::empty()
    } else {
        let rest = lines_handed_out(actions.skip(1));
        match actions[0] {
            ActionView::Output(tag, text) => seq![(tag, text)] + rest,
            _ => rest,
        }
    }
}

/// The lines of one stream among `lines`, in their order.
pub open spec fn of_stream(lines: Seq<(StdioType, Seq<char>)>, tag: StdioType) -> Seq<Seq<char>>
    decreases lines.len(),
{
    if lines.len() == 0 {
        Seq::empty()
    } else if lines[0].0 == tag {
        seq![lines[0].1] + of_stream(lines.skip(1), tag)
    } else {
        of_stream(lines.skip(1), tag)
    }
}

/// What the merge polls is what it expects: a reader is in the polling
/// order exactly when an event of it is expected, and so is the exit
/// watcher; the exit watcher stands last, behind every reader.
pub proof fn lemma_poll_order(state: MuxState)
    ensures
        forall|fd: i32|
            state.poll_order().contains(Source::Reader(fd)) <==> state.polls_reader(fd),
        forall|pid: i32|
            state.poll_order().contains(Source::ExitWatcher(pid)) <==> (state.polls_exit() && pid
                == state.handle.pid),
        forall|i: int|
            0 <= i < state.poll_order().len() && #[trigger] state.poll_order()[i] is ExitWatcher
                ==> i == state.poll_order().len() - 1,
        !state.live() ==> state.poll_order().len() == 0,
{
    let order = state.poll_order();
    assert forall|fd: i32| state.polls_reader(fd) implies order.contains(Source::Reader(fd)) by {
        if state.stdout_open && fd == state.handle.stdout {
            assert(order[0] == Source::Reader(fd));
        } else {
            let at = if state.stdout_open {
                1int
            } else {
                0int
            };
            assert(order[at] == Source::Reader(fd));
        }
    }
    assert forall|pid: i32| state.polls_exit() && pid == state.handle.pid implies order.contains(
        Source::ExitWatcher(pid),
    ) by {
        assert(order[order.len() - 1] == Source::ExitWatcher(pid));
    }
}

/// A step never changes the handle, and a sequence that has ended stays as
/// it is and hands out nothing: no event follows the status.
pub proof fn lemma_nothing_after_the_end(state: MuxState, event: EventView)
    ensures
        state.step(event).0.handle == state.handle,
        !state.live() ==> state.step(event) == (state, ActionView::Idle),
        !state.live() ==> !state.expects(event),
{
}

/// A reader that has ended is not started again, and a child that was seen
/// to end is not merged again.
pub proof fn lemma_no_way_back(state: MuxState, event: EventView)
    ensures
        state.step(event).0.stdout_open ==> state.stdout_open,
        state.step(event).0.stderr_open ==> state.stderr_open,
        state.step(event).0.phase is Merging ==> state.phase is Merging,
        state.step(event).0.live() ==> state.live(),
{
}

/// The status is handed out in the step that ends the sequence, and in no
/// other: a step hands out a status exactly when it moves a live sequence
/// to `Finished`, with that status and the two descriptors of the handle to
/// close; it hands out a fault exactly when it moves to `Failed`.
pub proof fn lemma_end_of_sequence(state: MuxState, event: EventView)
    requires
        state.live(),
    ensures
        ({
            let (next, action) = state.step(event);
            &&& next.phase is Finished <==> action is Finish
            &&& next.phase is Failed <==> action is Abort
            &&& !(next.phase is Terminated)
            &&& action matches ActionView::Finish { close_stdout, close_stderr, status } ==> {
                &&& next.phase == Phase::Finished(status)
                &&& !next.stdout_open && !next.stderr_open
                &&& close_stdout == state.handle.stdout
                &&& close_stderr == state.handle.stderr
                &&& state.phase is Draining ==> state.phase == Phase::Draining(status)
                &&& state.phase is Merging ==> event is Exited && classify_child_spec(
                    state.handle.pid,
                    event->Exited_0,
                ) == Ok::<XStatus, StreamError>(status)
            }
            &&& action matches ActionView::Abort(error) ==> next.phase == Phase::Failed(error)
        }),
{
}

/// The exit of the child does not end the sequence while a reader is open:
/// the merge goes on draining, still polls that reader, and hands out every
/// line that it gives. So a line written just before the exit is not lost.
pub proof fn lemma_drains_after_exit(
    state: MuxState,
    waited: Result<WaitOutcome, i32>,
    tag: StdioType,
    text: Seq<char>,
)
    requires
        state.phase is Merging,
        state.is_open(tag),
        state.handle.stdout != state.handle.stderr,
        classify_child_spec(state.handle.pid, waited) is Ok,
    ensures
        ({
            let (after, action) = state.step(EventView::Exited(waited));
            let fd = state.handle.fd_of(tag);
            &&& action == ActionView::Idle
            &&& after.phase == Phase::Draining(classify_child_spec(state.handle.pid, waited)->Ok_0)
            &&& after.polls_reader(fd)
            &&& after.step(EventView::Line(fd, text)) == (after, ActionView::Output(tag, text))
        }),
{
}

/// Every line that the readers give is handed out, once, with the stream
/// that it was read from, and in the order in which it came, whenever the
/// exit of the child is seen; nothing else is handed out as a line. So each
/// stream's lines come out complete and in their original order.
pub proof fn lemma_lines_are_handed_out(state: MuxState, events: Seq<EventView>)
    requires
        state.handle.stdout != state.handle.stderr,
        orderly(state, events),
    ensures
        run(state, events).1.len() == events.len(),
        run(state, events).0.handle == state.handle,
        lines_handed_out(run(state, events).1) == lines_read(state, events),
        forall|tag: StdioType|
            of_stream(lines_handed_out(run(state, events).1), tag) == of_stream(
                lines_read(state, events),
                tag,
            ),
    decreases events.len(),
{
    if events.len() > 0 {
        let (next, action) = state.step(events[0]);
        lemma_lines_are_handed_out(next, events.skip(1));
        let (last, actions) = run(next, events.skip(1));
        let all = seq![action] + actions;
        assert(all.skip(1) =~= actions);
        assert(all[0] == action);
        assert(lines_read(next, events.skip(1)) == lines_read(state, events.skip(1))) by {
            lemma_lines_read_of_handle(next, state, events.skip(1));
        }
    }
}

/// Which lines were read depends on the handle alone.
pub proof fn lemma_lines_read_of_handle(a: MuxState, b: MuxState, events: Seq<EventView>)
    requires
        a.handle == b.handle,
    ensures
        lines_read(a, events) == lines_read(b, events),
    decreases events.len(),
{
    if events.len() > 0 {
        lemma_lines_read_of_handle(a, b, events.skip(1));
    }
}

/// In a sequence that was driven to its end, the status is the last thing
/// handed out and is handed out once: every action before the last is a
/// line or nothing, and the last closes the two descriptors of the handle
/// and gives the status.
pub proof fn lemma_status_is_last(state: MuxState, events: Seq<EventView>, status: XStatus)
    requires
        state.live(),
        orderly(state, events),
        run(state, events).0.phase == Phase::Finished(status),
    ensures
        events.len() > 0,
        run(state, events).1.len() == events.len(),
        run(state, events).1.last() == (ActionView::Finish {
            close_stdout: state.handle.stdout,
            close_stderr: state.handle.stderr,
            status,
        }),
        forall|i: int|
            0 <= i < events.len() - 1 ==> {
                let action = #[trigger] run(state, events).1[i];
                action is Idle || action is Output
            },
    decreases events.len(),
{
    if events.len() > 0 {
        let (next, action) = state.step(events[0]);
        let rest = events.skip(1);
        let (last, actions) = run(next, rest);
        let all = seq![action] + actions;
        lemma_end_of_sequence(state, events[0]);
        if next.live() {
            lemma_status_is_last(next, rest, status);
            assert(all.last() == actions.last());
            assert forall|i: int| 0 <= i < events.len() - 1 implies {
                let a = #[trigger] all[i];
                a is Idle || a is Output
            } by {
                if i > 0 {
                    assert(all[i] == actions[i - 1]);
                }
            }
        } else {
            assert(orderly(next, rest));
            if rest.len() > 0 {
                lemma_nothing_after_the_end(next, rest[0]);
                assert(next.expects(rest[0]));
            }
            assert(rest.len() == 0);
            assert(actions =~= Seq::empty());
        }
    }
}

/// Once the child has been seen to end, the driver is never asked for its
/// exit again: the child is waited for at most once.
pub proof fn lemma_waited_for_once(state: MuxState, events: Seq<EventView>)
    requires
        !(state.phase is Merging),
        orderly(state, events),
    ensures
        forall|i: int| 0 <= i < events.len() ==> !(#[trigger] events[i] is Exited),
    decreases events.len(),
{
    if events.len() > 0 {
        let next = state.step(events[0]).0;
        let rest = events.skip(1);
        lemma_waited_for_once(next, rest);
        assert forall|i: int| 0 <= i < events.len() implies !(#[trigger] events[i] is Exited) by {
            if i > 0 {
                assert(events[i] == rest[i - 1]);
            }
        }
    }
}

/// What a live state still lacks to end with `status`, and the events
/// supply: the end of each open reader, and the exit of the child where it
/// has not been seen.
pub open spec fn supplies(
    state: MuxState,
    events: Seq<EventView>,
    waited: Result<WaitOutcome, i32>,
    status: XStatus,
) -> bool {
    &&& state.live()
    &&& state.stdout_open ==> events.contains(EventView::Closed(state.handle.stdout))
    &&& state.stderr_open ==> events.contains(EventView::Closed(state.handle.stderr))
    &&& state.phase is Merging ==> {
        &&& events.contains(EventView::Exited(waited))
        &&& classify_child_spec(state.handle.pid, waited) == Ok::<XStatus, StreamError>(status)
    }
    &&& state.phase is Draining ==> {
        &&& state.phase == Phase::Draining(status)
        &&& state.stdout_open || state.stderr_open
    }
}

/// An element of a sequence that is not its first is an element of the rest.
proof fn lemma_contained_in_rest<A>(items: Seq<A>, item: A)
    requires
        items.contains(item),
        items.len() > 0,
        items[0] != item,
    ensures
        items.skip(1).contains(item),
{
    let i = choose|i: int| 0 <= i < items.len() && items[i] == item;
    assert(items.skip(1)[i - 1] == item);
}

/// A sequence that is supplied with the end of both readers and the exit of
/// the child ends with the status of that exit.
pub proof fn lemma_supplied_run_ends(
    state: MuxState,
    events: Seq<EventView>,
    waited: Result<WaitOutcome, i32>,
    status: XStatus,
)
    requires
        state.handle.stdout != state.handle.stderr,
        orderly(state, events),
        supplies(state, events, waited, status),
    ensures
        run(state, events).0.phase == Phase::Finished(status),
    decreases events.len(),
{
    if events.len() == 0 {
        assert(forall|e: EventView| !events.contains(e));
        assert(false);
    } else {
        let first = events[0];
        let rest = events.skip(1);
        let (next, action) = state.step(first);
        assert(orderly(next, rest));
        lemma_end_of_sequence(state, first);
        if let EventView::Exited(seen) = first {
            if seen != waited {
                lemma_contained_in_rest(events, EventView::Exited(waited));
                let i = choose|i: int| 0 <= i < rest.len() && rest[i] == EventView::Exited(waited);
                if next.live() {
                    lemma_waited_for_once(next, rest);
                    assert(!(rest[i] is Exited));
                } else {
                    lemma_nothing_after_the_end(next, rest[0]);
                }
                assert(false);
            }
        }
        if next.live() {
            if next.stdout_open {
                lemma_contained_in_rest(events, EventView::Closed(state.handle.stdout));
            }
            if next.stderr_open {
                lemma_contained_in_rest(events, EventView::Closed(state.handle.stderr));
            }
            if next.phase is Merging {
                lemma_contained_in_rest(events, EventView::Exited(waited));
            }
            assert(supplies(next, rest, waited, status));
            lemma_supplied_run_ends(next, rest, waited, status);
        } else {
            if rest.len() > 0 {
                lemma_nothing_after_the_end(next, rest[0]);
            }
            assert(rest.len() == 0);
            assert(run(next, rest).0 == next);
            assert(next.phase == Phase::Finished(status));
        }
    }
}

/// The whole sequence of a child: when the driver reports what it is asked
/// for, the readers give their lines and then end, and the wait returns
/// `waited`, which stands for `status`, then whenever the exit is seen
///
/// - the lines of each stream are handed out complete and in their order,
/// - the status is the last thing handed out, with the two descriptors to
///   close, and
/// - nothing but lines is handed out before it.
pub proof fn lemma_whole_sequence(
    state: MuxState,
    events: Seq<EventView>,
    waited: Result<WaitOutcome, i32>,
    status: XStatus,
)
    requires
        state.handle.stdout != state.handle.stderr,
        state.phase is Merging,
        orderly(state, events),
        supplies(state, events, waited, status),
    ensures
        run(state, events).0.phase == Phase::Finished(status),
        forall|tag: StdioType|
            of_stream(lines_handed_out(run(state, events).1), tag) == of_stream(
                lines_read(state, events),
                tag,
            ),
        run(state, events).1.len() == events.len() > 0,
        run(state, events).1.last() == (ActionView::Finish {
            close_stdout: state.handle.stdout,
            close_stderr: state.handle.stderr,
            status,
        }),
        forall|i: int|
            0 <= i < events.len() - 1 ==> {
                let action = #[trigger] run(state, events).1[i];
                action is Idle || action is Output
            },
{
    lemma_supplied_run_ends(state, events, waited, status);
    lemma_lines_are_handed_out(state, events);
    lemma_status_is_last(state, events, status);
}

/// A line that was read from a descriptor of another handle is never handed
/// out, and the end of a foreign reader ends nothing: the state stays as it
/// is. The driver is not asked for either.
pub proof fn lemma_foreign_descriptor(state: MuxState, fd: i32, text: Seq<char>)
    requires
        !state.handle.owns(fd),
    ensures
        state.step(EventView::Line(fd, text)) == (state, ActionView::Idle),
        state.step(EventView::Undecodable(fd)) == (state, ActionView::Idle),
        state.step(EventView::Closed(fd)) == (state, ActionView::Idle),
        !state.polls_reader(fd),
{
}

/// Two sequences whose handles share no descriptor are apart: what the
/// driver is asked to read for one is never a descriptor of the other, and
/// the lines that were read for one hand out nothing in the other.
pub proof fn lemma_sequences_apart(own: MuxState, other: MuxState, events: Seq<EventView>)
    requires
        !other.handle.owns(own.handle.stdout),
        !other.handle.owns(own.handle.stderr),
        orderly(own, events),
    ensures
        forall|fd: i32| own.polls_reader(fd) ==> !other.handle.owns(fd),
        lines_read(other, events) == Seq::<(StdioType, Seq<char>)>::empty(),
        lines_handed_out(run(other, events).1) == Seq::<(StdioType, Seq<char>)>::empty(),
    decreases events.len(),
{
    if events.len() > 0 {
        let first = events[0];
        let rest = events.skip(1);
        lemma_nothing_after_the_end(own, first);
        lemma_nothing_after_the_end(other, first);
        let next_own = own.step(first).0;
        let (next_other, action) = other.step(first);
        lemma_sequences_apart(next_own, next_other, rest);
        lemma_lines_read_of_handle(next_other, other, rest);
        let actions = run(next_other, rest).1;
        assert((seq![action] + actions).skip(1) =~= actions);
        assert(!(action is Output));
    }
}

/// A run never changes the handle.
pub proof fn lemma_handle_stays(state: MuxState, events: Seq<EventView>)
    ensures
        run(state, events).0.handle == state.handle,
    decreases events.len(),
{
    if events.len() > 0 {
        lemma_handle_stays(state.step(events[0]).0, events.skip(1));
    }
}

/// A child that prints and then exits with code zero: whatever the order
/// in which its lines and its exit are seen, each stream's lines are handed
/// out complete and in their order, and `Exited(0)` follows them as the
/// last element.
pub proof fn lemma_exit_zero(state: MuxState, events: Seq<EventView>)
    requires
        state == MuxState::begin(state.handle),
        state.handle.stdout != state.handle.stderr,
        orderly(state, events),
        events.contains(EventView::Closed(state.handle.stdout)),
        events.contains(EventView::Closed(state.handle.stderr)),
        events.contains(EventView::Exited(Ok(WaitOutcome::Exited(state.handle.pid, 0)))),
    ensures
        forall|tag: StdioType|
            of_stream(lines_handed_out(run(state, events).1), tag) == of_stream(
                lines_read(state, events),
                tag,
            ),
        run(state, events).1.last() == (ActionView::Finish {
            close_stdout: state.handle.stdout,
            close_stderr: state.handle.stderr,
            status: XStatus::Exited(0),
        }),
        run(state, events).0.phase == Phase::Finished(XStatus::Exited(0)),
{
    lemma_whole_sequence(
        state,
        events,
        Ok(WaitOutcome::Exited(state.handle.pid, 0)),
        XStatus::Exited(0),
    );
}

/// A child that is killed by a signal: the status at the end of its
/// sequence is `Signaled` with the number of that signal, and whatever is
/// reported after it, nothing more is handed out.
pub proof fn lemma_killed_by_signal(
    state: MuxState,
    events: Seq<EventView>,
    signal: i32,
    core: bool,
    later: EventView,
)
    requires
        state == MuxState::begin(state.handle),
        state.handle.stdout != state.handle.stderr,
        orderly(state, events),
        events.contains(EventView::Closed(state.handle.stdout)),
        events.contains(EventView::Closed(state.handle.stderr)),
        events.contains(
            EventView::Exited(Ok(WaitOutcome::Signaled(state.handle.pid, signal, core))),
        ),
    ensures
        run(state, events).1.last() == (ActionView::Finish {
            close_stdout: state.handle.stdout,
            close_stderr: state.handle.stderr,
            status: XStatus::Signaled(signal),
        }),
        run(state, events).0.phase == Phase::Finished(XStatus::Signaled(signal)),
        run(state, events).0.step(later) == (run(state, events).0, ActionView::Idle),
        run(state, events).0.poll_order().len() == 0,
{
    lemma_whole_sequence(
        state,
        events,
        Ok(WaitOutcome::Signaled(state.handle.pid, signal, core)),
        XStatus::Signaled(signal),
    );
    lemma_nothing_after_the_end(run(state, events).0, later);
}

} // verus!

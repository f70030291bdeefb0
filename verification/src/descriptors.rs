//! The account of open descriptors: what a launch opens and closes, what a
//! sequence closes, and that between them nothing is left open and nothing
//! is closed twice.

use crate::launch::{
    child_script, launch_step, LaunchActionView, LaunchEvent, LaunchState, PtyPair,
};
use crate::sequence::{orderly, run};
use crate::stream::{ActionView, EventView, HandleView, MuxState, Teardown};
use vstd::prelude::*;

verus! {

/// One change of the table of open descriptors of the parent.
pub enum FdOp {
    /// The descriptor was opened.
    Open(i32),
    /// The descriptor is closed.
    Close(i32),
}

/// The table after one change.
pub open spec fn apply_one(table: Set<i32>, op: FdOp) -> Set<i32> {
    match op {
        FdOp::Open(fd) => table.insert(fd),
        FdOp::Close(fd) => table.remove(fd),
    }
}

/// Whether the change fits the table: what is opened was not open, and what
/// is closed was.
pub open spec fn sound_one(table: Set<i32>, op: FdOp) -> bool {
    match op {
        FdOp::Open(fd) => !table.contains(fd),
        FdOp::Close(fd) => table.contains(fd),
    }
}

/// The table after the changes, made in their order.
pub open spec fn apply(table: Set<i32>, ops: Seq<FdOp>) -> Set<i32>
    decreases ops.len(),
{
    if ops.len() == 0 {
        table
    } else {
        apply(apply_one(table, ops[0]), ops.skip(1))
    }
}

/// Whether each change fits the table that the changes before it left: no
/// descriptor is closed that is not open, so none is closed twice.
pub open spec fn sound(table: Set<i32>, ops: Seq<FdOp>) -> bool
    decreases ops.len(),
{
    ops.len() == 0 || (sound_one(table, ops[0]) && sound(apply_one(table, ops[0]), ops.skip(1)))
}

/// The closing of each of the descriptors, in their order.
pub open spec fn closes(fds: Seq<i32>) -> Seq<FdOp> {
    fds.map_values(|fd: i32| FdOp::Close(fd))
}

/// What one step of a launch does to the table: a pair that was opened
/// comes in, and what the action closes goes out.
pub open spec fn launch_effects(event: LaunchEvent, action: LaunchActionView) -> Seq<FdOp> {
    let opened = match event {
        LaunchEvent::PtyOpened(pair) => seq![FdOp::Open(pair.master), FdOp::Open(pair.slave)],
        _ => Seq::empty(),
    };
    let closed = match action {
        LaunchActionView::Spawned { close_stdout_slave, close_stderr_slave, .. } => seq![
            FdOp::Close(close_stdout_slave),
            FdOp::Close(close_stderr_slave),
        ],
        LaunchActionView::Failed { close, .. } => closes(close),
        _ => Seq::empty(),
    };
    opened + closed
}

/// The state of a launch after the events, the action that answered the
/// last of them, and all that was done to the table.
pub open spec fn launch_run(state: LaunchState, events: Seq<LaunchEvent>) -> (
    LaunchState,
    LaunchActionView,
    Seq<FdOp>,
)
    decreases events.len(),
{
    if events.len() == 0 {
        (state, LaunchActionView::Unexpected, Seq::empty())
    } else {
        let (before, _, effects) = launch_run(state, events.drop_last());
        let (after, action) = launch_step(before, events.last());
        (after, action, effects + launch_effects(events.last(), action))
    }
}

/// What one action of a sequence does to the table.
pub open spec fn stream_effects(action: ActionView) -> Seq<FdOp> {
    match action {
        ActionView::Finish { close_stdout, close_stderr, .. } => seq![
            FdOp::Close(close_stdout),
            FdOp::Close(close_stderr),
        ],
        _ => Seq::empty(),
    }
}

/// What giving a sequence up does to the table.
pub open spec fn teardown_effects(teardown: Teardown) -> Seq<FdOp> {
    match teardown {
        Teardown::KillReapClose { stdout, stderr, .. } => seq![
            FdOp::Close(stdout),
            FdOp::Close(stderr),
        ],
        Teardown::Close { stdout, stderr } => seq![FdOp::Close(stdout), FdOp::Close(stderr)],
        Teardown::Nothing => Seq::empty(),
    }
}

/// All that the actions of a sequence do to the table, in their order.
pub open spec fn all_stream_effects(actions: Seq<ActionView>) -> Seq<FdOp>
    decreases actions.len(),
{
    if actions.len() == 0 {
        Seq::empty()
    } else {
        stream_effects(actions[0]) + all_stream_effects(actions.skip(1))
    }
}

/// The descriptors that a sequence holds open: the two of its handle, until
/// it has ended with a status or was given up.
pub open spec fn held(state: MuxState) -> Set<i32> {
    if state.holds_descriptors() {
        set![state.handle.stdout, state.handle.stderr]
    } else {
        Set::empty()
    }
}

/// Changes made one after the other are the changes of both, in one go.
pub proof fn lemma_apply_concat(table: Set<i32>, first: Seq<FdOp>, second: Seq<FdOp>)
    ensures
        apply(table, first + second) == apply(apply(table, first), second),
        sound(table, first + second) <==> sound(table, first) && sound(
            apply(table, first),
            second,
        ),
    decreases first.len(),
{
    if first.len() == 0 {
        assert(first + second =~= second);
    } else {
        assert((first + second).skip(1) =~= first.skip(1) + second);
        lemma_apply_concat(apply_one(table, first[0]), first.skip(1), second);
    }
}

/// Every step of a sequence keeps the account: what it closes was held, and
/// what is held after it is what was held less what it closed.
pub proof fn lemma_step_keeps_account(state: MuxState, event: EventView)
    requires
        state.handle.stdout != state.handle.stderr,
    ensures
        sound(held(state), stream_effects(state.step(event).1)),
        apply(held(state), stream_effects(state.step(event).1)) == held(state.step(event).0),
{
    let (next, action) = state.step(event);
    if action is Finish {
        crate::sequence::lemma_end_of_sequence(state, event);
        lemma_closing_both(state.handle.stdout, state.handle.stderr);
        assert(held(next) =~= Set::empty());
    } else {
        assert(held(next) =~= held(state));
    }
}

/// Closing two distinct descriptors that make up the table empties it.
proof fn lemma_closing_both(a: i32, b: i32)
    requires
        a != b,
    ensures
        sound(set![a, b], seq![FdOp::Close(a), FdOp::Close(b)]),
        apply(set![a, b], seq![FdOp::Close(a), FdOp::Close(b)]) == Set::<i32>::empty(),
{
    let ops = seq![FdOp::Close(a), FdOp::Close(b)];
    let after = apply_one(set![a, b], ops[0]);
    assert(ops.skip(1) =~= seq![FdOp::Close(b)]);
    assert(ops.skip(1).skip(1) =~= Seq::<FdOp>::empty());
    assert(after =~= set![b]);
    assert(apply_one(after, FdOp::Close(b)) =~= Set::<i32>::empty());
    reveal_with_fuel(apply, 3);
    reveal_with_fuel(sound, 3);
}

/// Giving a sequence up keeps the account, and leaves nothing held: a
/// sequence that has not ended closes its two descriptors, one that has
/// ended or was given up before closes nothing again.
pub proof fn lemma_teardown_keeps_account(state: MuxState)
    requires
        state.handle.stdout != state.handle.stderr,
    ensures
        sound(held(state), teardown_effects(state.teardown().1)),
        apply(held(state), teardown_effects(state.teardown().1)) == Set::<i32>::empty(),
        held(state.teardown().0) == Set::<i32>::empty(),
        state.teardown().1 is KillReapClose <==> state.polls_exit(),
{
    if state.holds_descriptors() {
        lemma_closing_both(state.handle.stdout, state.handle.stderr);
    }
}

/// A whole run of a sequence keeps the account, whatever the events are.
pub proof fn lemma_run_keeps_account(state: MuxState, events: Seq<EventView>)
    requires
        state.handle.stdout != state.handle.stderr,
    ensures
        sound(held(state), all_stream_effects(run(state, events).1)),
        apply(held(state), all_stream_effects(run(state, events).1)) == held(
            run(state, events).0,
        ),
    decreases events.len(),
{
    if events.len() > 0 {
        let (next, action) = state.step(events[0]);
        let (last, actions) = run(next, events.skip(1));
        let all = seq![action] + actions;
        assert(all.skip(1) =~= actions);
        crate::sequence::lemma_nothing_after_the_end(state, events[0]);
        lemma_step_keeps_account(state, events[0]);
        lemma_run_keeps_account(next, events.skip(1));
        lemma_apply_concat(held(state), stream_effects(action), all_stream_effects(actions));
    }
}

/// Closing descriptors of a part of the table leaves the rest of it alone.
pub proof fn lemma_closing_within(rest: Set<i32>, part: Set<i32>, ops: Seq<FdOp>)
    requires
        rest.disjoint(part),
        sound(part, ops),
        forall|i: int| 0 <= i < ops.len() ==> #[trigger] ops[i] is Close,
    ensures
        sound(rest.union(part), ops),
        apply(rest.union(part), ops) == rest.union(apply(part, ops)),
    decreases ops.len(),
{
    if ops.len() > 0 {
        let fd = ops[0]->Close_0;
        assert(apply_one(rest.union(part), ops[0]) =~= rest.union(apply_one(part, ops[0])));
        assert forall|i: int| 0 <= i < ops.skip(1).len() implies #[trigger] ops.skip(1)[i]
            is Close by {
            assert(ops.skip(1)[i] == ops[i + 1]);
        }
        lemma_closing_within(rest, apply_one(part, ops[0]), ops.skip(1));
    }
}

/// A sequence closes and never opens.
pub proof fn lemma_sequence_only_closes(actions: Seq<ActionView>)
    ensures
        forall|i: int|
            0 <= i < all_stream_effects(actions).len() ==> #[trigger] all_stream_effects(
                actions,
            )[i] is Close,
    decreases actions.len(),
{
    if actions.len() > 0 {
        lemma_sequence_only_closes(actions.skip(1));
    }
}

/// The four descriptors of two pairs are apart from each other and from
/// every descriptor in the table: what the operating system gives when it
/// opens them while the table is as it is.
pub open spec fn fresh(table: Set<i32>, stdout: PtyPair, stderr: PtyPair) -> bool {
    &&& !table.contains(stdout.master)
    &&& !table.contains(stdout.slave)
    &&& !table.contains(stderr.master)
    &&& !table.contains(stderr.slave)
    &&& stdout.master != stdout.slave
    &&& stdout.master != stderr.master
    &&& stdout.master != stderr.slave
    &&& stdout.slave != stderr.master
    &&& stdout.slave != stderr.slave
    &&& stderr.master != stderr.slave
}

/// The reports of a launch that brings a child.
pub open spec fn launch_with_child(stdout: PtyPair, stderr: PtyPair, pid: i32) -> Seq<
    LaunchEvent,
> {
    seq![
        LaunchEvent::Begin,
        LaunchEvent::PtyOpened(stdout),
        LaunchEvent::PtyOpened(stderr),
        LaunchEvent::Forked(pid),
    ]
}

/// A launch in which both pairs open and the fork succeeds brings a child,
/// whatever the program is: the last action hands out a handle with the
/// process id and the two masters. The child was told to close the masters
/// and to take the slaves for its standard streams; the parent closes the
/// slaves. Of the four descriptors the two masters stay open, and nothing
/// is closed that was not open.
pub proof fn lemma_launch_with_child(table: Set<i32>, stdout: PtyPair, stderr: PtyPair, pid: i32)
    requires
        fresh(table, stdout, stderr),
    ensures
        ({
            let events = launch_with_child(stdout, stderr, pid);
            let (state, action, effects) = launch_run(LaunchState::Idle, events);
            let handle = HandleView { pid, stdout: stdout.master, stderr: stderr.master };
            &&& state == LaunchState::Done
            &&& action == (LaunchActionView::Spawned {
                close_stdout_slave: stdout.slave,
                close_stderr_slave: stderr.slave,
                handle,
            })
            &&& launch_run(LaunchState::Idle, events.drop_last()).1 == LaunchActionView::Fork(
                child_script(stdout, stderr),
            )
            &&& sound(table, effects)
            &&& apply(table, effects) == table.union(held(MuxState::begin(handle)))
            &&& table.disjoint(held(MuxState::begin(handle)))
        }),
{
    let events = launch_with_child(stdout, stderr, pid);
    let e3 = events.drop_last();
    let e2 = e3.drop_last();
    let e1 = e2.drop_last();
    let e0 = e1.drop_last();
    assert(e0.len() == 0);
    reveal_with_fuel(launch_run, 5);
    let effects = launch_run(LaunchState::Idle, events).2;
    let expected = seq![
        FdOp::Open(stdout.master),
        FdOp::Open(stdout.slave),
        FdOp::Open(stderr.master),
        FdOp::Open(stderr.slave),
        FdOp::Close(stdout.slave),
        FdOp::Close(stderr.slave),
    ];
    assert(effects =~= expected);
    lemma_apply_six(table, expected);
    let handle = HandleView { pid, stdout: stdout.master, stderr: stderr.master };
    assert(apply(table, expected) =~= table.union(held(MuxState::begin(handle))));
}

/// The table after six changes, written out.
proof fn lemma_apply_six(table: Set<i32>, ops: Seq<FdOp>)
    requires
        ops.len() == 6,
    ensures
        apply(table, ops) == apply_one(
            apply_one(
                apply_one(
                    apply_one(apply_one(apply_one(table, ops[0]), ops[1]), ops[2]),
                    ops[3],
                ),
                ops[4],
            ),
            ops[5],
        ),
        sound(table, ops) <==> {
            let t1 = apply_one(table, ops[0]);
            let t2 = apply_one(t1, ops[1]);
            let t3 = apply_one(t2, ops[2]);
            let t4 = apply_one(t3, ops[3]);
            let t5 = apply_one(t4, ops[4]);
            &&& sound_one(table, ops[0])
            &&& sound_one(t1, ops[1])
            &&& sound_one(t2, ops[2])
            &&& sound_one(t3, ops[3])
            &&& sound_one(t4, ops[4])
            &&& sound_one(t5, ops[5])
        },
{
    let s1 = ops.skip(1);
    let s2 = s1.skip(1);
    let s3 = s2.skip(1);
    let s4 = s3.skip(1);
    let s5 = s4.skip(1);
    let s6 = s5.skip(1);
    assert(s6.len() == 0);
    assert(s1[0] == ops[1] && s2[0] == ops[2] && s3[0] == ops[3] && s4[0] == ops[4] && s5[0]
        == ops[5]);
    reveal_with_fuel(apply, 7);
    reveal_with_fuel(sound, 7);
}

/// A launch that brings no child leaves the table as it was: a pair that
/// was opened before the failure is closed again, and nothing is closed
/// that was not open. The error says what failed, with the error number
/// that was reported.
pub proof fn lemma_failed_launch_leaks_nothing(
    table: Set<i32>,
    stdout: PtyPair,
    stderr: PtyPair,
    errno: i32,
)
    requires
        fresh(table, stdout, stderr),
    ensures
        ({
            let (state, action, effects) = launch_run(
                LaunchState::Idle,
                seq![LaunchEvent::Begin, LaunchEvent::PtyFailed(errno)],
            );
            &&& state == LaunchState::Done
            &&& action matches LaunchActionView::Failed { error, .. }
            &&& error == crate::command::SpawnError::AllocationFailure(errno)
            &&& sound(table, effects)
            &&& apply(table, effects) == table
        }),
        ({
            let (state, action, effects) = launch_run(
                LaunchState::Idle,
                seq![
                    LaunchEvent::Begin,
                    LaunchEvent::PtyOpened(stdout),
                    LaunchEvent::PtyFailed(errno),
                ],
            );
            &&& state == LaunchState::Done
            &&& action matches LaunchActionView::Failed { error, .. }
            &&& error == crate::command::SpawnError::AllocationFailure(errno)
            &&& sound(table, effects)
            &&& apply(table, effects) == table
        }),
        ({
            let (state, action, effects) = launch_run(
                LaunchState::Idle,
                seq![
                    LaunchEvent::Begin,
                    LaunchEvent::PtyOpened(stdout),
                    LaunchEvent::PtyOpened(stderr),
                    LaunchEvent::ForkFailed(errno),
                ],
            );
            &&& state == LaunchState::Done
            &&& action matches LaunchActionView::Failed { error, .. }
            &&& error == crate::command::SpawnError::ForkFailure(errno)
            &&& sound(table, effects)
            &&& apply(table, effects) == table
        }),
{
    reveal_with_fuel(launch_run, 5);
    reveal_with_fuel(apply, 9);
    reveal_with_fuel(sound, 9);
    {
        let events = seq![LaunchEvent::Begin, LaunchEvent::PtyFailed(errno)];
        assert(events.drop_last().drop_last().len() == 0);
        let effects = launch_run(LaunchState::Idle, events).2;
        assert(effects =~= Seq::<FdOp>::empty());
    }
    {
        let events = seq![
            LaunchEvent::Begin,
            LaunchEvent::PtyOpened(stdout),
            LaunchEvent::PtyFailed(errno),
        ];
        assert(events.drop_last().drop_last().drop_last().len() == 0);
        let effects = launch_run(LaunchState::Idle, events).2;
        let expected = seq![
            FdOp::Open(stdout.master),
            FdOp::Open(stdout.slave),
            FdOp::Close(stdout.master),
            FdOp::Close(stdout.slave),
        ];
        assert(effects =~= expected);
        lemma_apply_concat(table, expected.take(2), expected.skip(2));
        assert(expected.take(2) + expected.skip(2) =~= expected);
        lemma_apply_two(table, expected.take(2));
        let mid = apply(table, expected.take(2));
        lemma_apply_two(mid, expected.skip(2));
        assert(apply(mid, expected.skip(2)) =~= table);
    }
    {
        let events = seq![
            LaunchEvent::Begin,
            LaunchEvent::PtyOpened(stdout),
            LaunchEvent::PtyOpened(stderr),
            LaunchEvent::ForkFailed(errno),
        ];
        assert(events.drop_last().drop_last().drop_last().drop_last().len() == 0);
        let effects = launch_run(LaunchState::Idle, events).2;
        let opened = seq![
            FdOp::Open(stdout.master),
            FdOp::Open(stdout.slave),
            FdOp::Open(stderr.master),
            FdOp::Open(stderr.slave),
        ];
        let closed = seq![
            FdOp::Close(stdout.master),
            FdOp::Close(stdout.slave),
            FdOp::Close(stderr.master),
            FdOp::Close(stderr.slave),
        ];
        assert(effects =~= opened + closed);
        lemma_apply_concat(table, opened, closed);
        lemma_apply_concat(table, opened.take(2), opened.skip(2));
        assert(opened.take(2) + opened.skip(2) =~= opened);
        lemma_apply_two(table, opened.take(2));
        let t2 = apply(table, opened.take(2));
        lemma_apply_two(t2, opened.skip(2));
        let t4 = apply(t2, opened.skip(2));
        lemma_apply_concat(t4, closed.take(2), closed.skip(2));
        assert(closed.take(2) + closed.skip(2) =~= closed);
        lemma_apply_two(t4, closed.take(2));
        let t6 = apply(t4, closed.take(2));
        lemma_apply_two(t6, closed.skip(2));
        assert(apply(t6, closed.skip(2)) =~= table);
    }
}

/// The table after two changes, written out.
proof fn lemma_apply_two(table: Set<i32>, ops: Seq<FdOp>)
    requires
        ops.len() == 2,
    ensures
        apply(table, ops) == apply_one(apply_one(table, ops[0]), ops[1]),
        sound(table, ops) <==> sound_one(table, ops[0]) && sound_one(
            apply_one(table, ops[0]),
            ops[1],
        ),
{
    let s1 = ops.skip(1);
    assert(s1.skip(1).len() == 0);
    assert(s1[0] == ops[1]);
    reveal_with_fuel(apply, 3);
    reveal_with_fuel(sound, 3);
}

/// The whole life of a child leaves the table of open descriptors as it
/// was: after a launch that brought the child and a sequence that was
/// driven to its status, every descriptor that was opened is closed again,
/// and none was closed twice. So launching and draining again and again
/// does not let the table grow.
pub proof fn lemma_whole_life_leaks_nothing(
    table: Set<i32>,
    stdout: PtyPair,
    stderr: PtyPair,
    pid: i32,
    events: Seq<EventView>,
)
    requires
        fresh(table, stdout, stderr),
        run(
            MuxState::begin(HandleView { pid, stdout: stdout.master, stderr: stderr.master }),
            events,
        ).0.phase is Finished,
    ensures
        ({
            let launch = launch_run(LaunchState::Idle, launch_with_child(stdout, stderr, pid)).2;
            let begin = MuxState::begin(
                HandleView { pid, stdout: stdout.master, stderr: stderr.master },
            );
            let drain = all_stream_effects(run(begin, events).1);
            &&& sound(table, launch + drain)
            &&& apply(table, launch + drain) == table
        }),
{
    let launch = launch_run(LaunchState::Idle, launch_with_child(stdout, stderr, pid)).2;
    let begin = MuxState::begin(HandleView { pid, stdout: stdout.master, stderr: stderr.master });
    let drain = all_stream_effects(run(begin, events).1);
    lemma_launch_with_child(table, stdout, stderr, pid);
    lemma_run_keeps_account(begin, events);
    lemma_sequence_only_closes(run(begin, events).1);
    lemma_closing_within(table, held(begin), drain);
    lemma_apply_concat(table, launch, drain);
    assert(table.union(Set::<i32>::empty()) =~= table);
}

/// A sequence that is given up, at whatever point, leaves the table as it
/// was before the launch as well: what the sequence has not closed the
/// teardown closes, and nothing is closed twice.
pub proof fn lemma_given_up_life_leaks_nothing(
    table: Set<i32>,
    stdout: PtyPair,
    stderr: PtyPair,
    pid: i32,
    events: Seq<EventView>,
)
    requires
        fresh(table, stdout, stderr),
    ensures
        ({
            let launch = launch_run(LaunchState::Idle, launch_with_child(stdout, stderr, pid)).2;
            let begin = MuxState::begin(
                HandleView { pid, stdout: stdout.master, stderr: stderr.master },
            );
            let (last, actions) = run(begin, events);
            let rest = all_stream_effects(actions) + teardown_effects(last.teardown().1);
            &&& sound(table, launch + rest)
            &&& apply(table, launch + rest) == table
        }),
{
    let launch = launch_run(LaunchState::Idle, launch_with_child(stdout, stderr, pid)).2;
    let begin = MuxState::begin(HandleView { pid, stdout: stdout.master, stderr: stderr.master });
    let (last, actions) = run(begin, events);
    let drain = all_stream_effects(actions);
    let down = teardown_effects(last.teardown().1);
    lemma_launch_with_child(table, stdout, stderr, pid);
    lemma_run_keeps_account(begin, events);
    crate::sequence::lemma_handle_stays(begin, events);
    lemma_teardown_keeps_account(last);
    lemma_apply_concat(held(begin), drain, down);
    lemma_sequence_only_closes(actions);
    assert forall|i: int| 0 <= i < (drain + down).len() implies #[trigger] (drain + down)[i]
        is Close by {
        if i >= drain.len() {
            assert((drain + down)[i] == down[i - drain.len()]);
        }
    }
    lemma_closing_within(table, held(begin), drain + down);
    lemma_apply_concat(table, launch, drain + down);
    assert(table.union(Set::<i32>::empty()) =~= table);
}

} // verus!

use taskwrap::command::{SpawnError, XCommand};
use taskwrap::launch::{
    ChildScript, ChildStep, Launch, LaunchAction, LaunchEvent, LaunchState, PtyPair,
    EXEC_FAILURE_CODE, STDERR_FILENO, STDOUT_FILENO,
};
use taskwrap::status::{classify, WaitOutcome, XStatus};

fn launch() -> Launch {
    XCommand::builder(b"/bin/true").build().spawn().unwrap()
}

const OUT: PtyPair = PtyPair { master: 10, slave: 11 };
const ERR: PtyPair = PtyPair { master: 12, slave: 13 };

#[test]
fn a_launch_opens_two_pairs_then_forks() {
    let mut l = launch();
    assert!(matches!(l.step(LaunchEvent::Begin), LaunchAction::OpenPty));
    assert!(matches!(l.step(LaunchEvent::PtyOpened(OUT)), LaunchAction::OpenPty));
    assert_eq!(LaunchState::AwaitStderrPty(OUT), l.state());
    match l.step(LaunchEvent::PtyOpened(ERR)) {
        LaunchAction::Fork(script) => assert_eq!(
            ChildScript {
                stdout_master: 10,
                stderr_master: 12,
                stdout_slave: 11,
                stderr_slave: 13,
                exit_code: 1
            },
            script
        ),
        other => panic!("{:?}", other),
    }
    assert_eq!(LaunchState::AwaitFork(OUT, ERR), l.state());
    match l.step(LaunchEvent::Forked(4242)) {
        LaunchAction::Spawned { close_stdout_slave, close_stderr_slave, handle } => {
            assert_eq!(11, close_stdout_slave);
            assert_eq!(13, close_stderr_slave);
            assert_eq!(4242, handle.pid());
            assert_eq!(10, handle.stdout());
            assert_eq!(12, handle.stderr());
        }
        other => panic!("{:?}", other),
    }
    assert_eq!(LaunchState::Done, l.state());
}

#[test]
fn the_child_closes_the_masters_and_takes_the_slaves() {
    let script = ChildScript {
        stdout_master: 10,
        stderr_master: 12,
        stdout_slave: 11,
        stderr_slave: 13,
        exit_code: EXEC_FAILURE_CODE,
    };
    assert_eq!(Some(ChildStep::Close(10)), script.step(0));
    assert_eq!(Some(ChildStep::Close(12)), script.step(1));
    assert_eq!(Some(ChildStep::Dup2(11, 1)), script.step(2));
    assert_eq!(Some(ChildStep::Dup2(13, 2)), script.step(3));
    assert_eq!(Some(ChildStep::Exec), script.step(4));
    assert_eq!(Some(ChildStep::Exit(1)), script.step(5));
    assert_eq!(None, script.step(6));
    assert_eq!(None, script.step(usize::MAX));
    assert_eq!(1, STDOUT_FILENO);
    assert_eq!(2, STDERR_FILENO);
}

#[test]
fn no_first_pair_closes_nothing() {
    let mut l = launch();
    l.step(LaunchEvent::Begin);
    match l.step(LaunchEvent::PtyFailed(24)) {
        LaunchAction::Failed { close, error } => {
            assert!(close.is_empty());
            assert_eq!(SpawnError::AllocationFailure(24), error);
        }
        other => panic!("{:?}", other),
    }
    assert_eq!(LaunchState::Done, l.state());
}

#[test]
fn no_second_pair_closes_the_first() {
    let mut l = launch();
    l.step(LaunchEvent::Begin);
    l.step(LaunchEvent::PtyOpened(OUT));
    match l.step(LaunchEvent::PtyFailed(23)) {
        LaunchAction::Failed { close, error } => {
            assert_eq!(vec![10, 11], close);
            assert_eq!(SpawnError::AllocationFailure(23), error);
        }
        other => panic!("{:?}", other),
    }
    assert_eq!(LaunchState::Done, l.state());
}

#[test]
fn a_failed_fork_closes_both_pairs() {
    let mut l = launch();
    l.step(LaunchEvent::Begin);
    l.step(LaunchEvent::PtyOpened(OUT));
    l.step(LaunchEvent::PtyOpened(ERR));
    match l.step(LaunchEvent::ForkFailed(11)) {
        LaunchAction::Failed { close, error } => {
            assert_eq!(vec![10, 11, 12, 13], close);
            assert_eq!(SpawnError::ForkFailure(11), error);
        }
        other => panic!("{:?}", other),
    }
    assert_eq!(LaunchState::Done, l.state());
}

#[test]
fn a_report_that_was_not_asked_for_changes_nothing() {
    let mut l = launch();
    assert!(matches!(l.step(LaunchEvent::Forked(1)), LaunchAction::Unexpected));
    assert!(matches!(l.step(LaunchEvent::PtyOpened(OUT)), LaunchAction::Unexpected));
    assert_eq!(LaunchState::Idle, l.state());
    l.step(LaunchEvent::Begin);
    assert!(matches!(l.step(LaunchEvent::Begin), LaunchAction::Unexpected));
    assert!(matches!(l.step(LaunchEvent::ForkFailed(1)), LaunchAction::Unexpected));
    assert_eq!(LaunchState::AwaitStdoutPty, l.state());
    l.step(LaunchEvent::PtyOpened(OUT));
    l.step(LaunchEvent::PtyOpened(ERR));
    assert!(matches!(l.step(LaunchEvent::PtyOpened(OUT)), LaunchAction::Unexpected));
    assert!(matches!(l.step(LaunchEvent::PtyFailed(5)), LaunchAction::Unexpected));
    assert_eq!(LaunchState::AwaitFork(OUT, ERR), l.state());
    l.step(LaunchEvent::Forked(7));
    assert!(matches!(l.step(LaunchEvent::Forked(7)), LaunchAction::Unexpected));
    assert!(matches!(l.step(LaunchEvent::Begin), LaunchAction::Unexpected));
    assert_eq!(LaunchState::Done, l.state());
}

#[test]
fn a_program_that_cannot_be_run_shows_as_a_failed_exit() {
    let mut l = XCommand::builder(b"/no/such/program").build().spawn().unwrap();
    l.step(LaunchEvent::Begin);
    l.step(LaunchEvent::PtyOpened(OUT));
    let code = match l.step(LaunchEvent::PtyOpened(ERR)) {
        LaunchAction::Fork(script) => match script.step(5) {
            Some(ChildStep::Exit(code)) => code,
            other => panic!("{:?}", other),
        },
        other => panic!("{:?}", other),
    };
    assert!(matches!(l.step(LaunchEvent::Forked(99)), LaunchAction::Spawned { .. }));
    let status = classify(Ok(WaitOutcome::Exited(99, code))).unwrap();
    assert_eq!(XStatus::Exited(1), status);
    assert!(!status.is_success());
}

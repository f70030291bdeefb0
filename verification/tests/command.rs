use taskwrap::command::{is_nul_free, SpawnError, XCommand, XCommandBuilder, KEY_VALUE_SEPARATOR};
use taskwrap::launch::{LaunchAction, LaunchEvent, LaunchState};

#[test]
fn zero_bytes_are_found() {
    assert!(is_nul_free(b""));
    assert!(is_nul_free(b"/usr/bin/task"));
    assert!(!is_nul_free(b"\0"));
    assert!(!is_nul_free(b"ab\0cd"));
    assert!(!is_nul_free(b"abcd\0"));
    assert!(is_nul_free(&[1u8, 255, 128]));
}

#[test]
fn image_has_the_program_in_front_of_the_arguments() {
    let command = XCommand::builder(b"/bin/echo")
        .arg("one")
        .unwrap()
        .arg("two words")
        .unwrap()
        .build();
    let image = command.marshal().unwrap();
    assert_eq!(b"/bin/echo".to_vec(), image.program);
    assert_eq!(
        vec![b"/bin/echo".to_vec(), b"one".to_vec(), b"two words".to_vec()],
        image.argv
    );
    assert!(image.envp.is_empty());
}

#[test]
fn image_of_a_bare_command() {
    let image = XCommandBuilder::new(b"task").build().marshal().unwrap();
    assert_eq!(b"task".to_vec(), image.program);
    assert_eq!(vec![b"task".to_vec()], image.argv);
    assert!(image.envp.is_empty());
}

#[test]
fn args_replace_what_was_there() {
    let command = XCommand::builder(b"task")
        .arg("gone")
        .unwrap()
        .args(&["help", "usage"])
        .unwrap()
        .build();
    let image = command.marshal().unwrap();
    assert_eq!(vec![b"task".to_vec(), b"help".to_vec(), b"usage".to_vec()], image.argv);
    let command = XCommand::builder(b"task").arg("gone").unwrap().args(&[]).unwrap().build();
    assert_eq!(vec![b"task".to_vec()], command.marshal().unwrap().argv);
}

#[test]
fn arguments_keep_their_bytes() {
    let command = XCommand::builder(b"task").arg("caf\u{e9}").unwrap().arg("").unwrap().build();
    let image = command.marshal().unwrap();
    assert_eq!(vec![b"task".to_vec(), vec![b'c', b'a', b'f', 0xc3, 0xa9], vec![]], image.argv);
}

#[test]
fn environment_entries_are_key_equals_value() {
    let command = XCommand::builder(b"task")
        .env("TERM", "xterm")
        .unwrap()
        .env("EMPTY", "")
        .unwrap()
        .env("A", "b=c")
        .unwrap()
        .build();
    let image = command.marshal().unwrap();
    assert_eq!(vec![b"TERM=xterm".to_vec(), b"EMPTY=".to_vec(), b"A=b=c".to_vec()], image.envp);
    assert_eq!(b'=', KEY_VALUE_SEPARATOR);
}

#[test]
fn an_argument_with_a_zero_byte_is_refused() {
    assert_eq!(
        Some(SpawnError::EncodingFailure),
        XCommand::builder(b"task").arg("a\0b").err()
    );
    assert_eq!(
        Some(SpawnError::EncodingFailure),
        XCommand::builder(b"task").args(&["fine", "not\0fine"]).err()
    );
    assert_eq!(
        Some(SpawnError::EncodingFailure),
        XCommand::builder(b"task").args(&["\0", "fine"]).err()
    );
    assert_eq!(
        Some(SpawnError::EncodingFailure),
        XCommand::builder(b"task").env("K\0", "v").err()
    );
    assert_eq!(
        Some(SpawnError::EncodingFailure),
        XCommand::builder(b"task").env("K", "\0v").err()
    );
}

#[test]
fn a_path_with_a_zero_byte_is_refused_before_anything_is_opened() {
    let command = XCommand::builder(b"/bin/ta\0sk").arg("list").unwrap().build();
    assert_eq!(Some(SpawnError::EncodingFailure), command.marshal().err());
    assert_eq!(Some(SpawnError::EncodingFailure), command.spawn().err());
}

#[test]
fn spawn_begins_a_launch_without_doing_anything() {
    let command = XCommand::builder(b"/no/such/program").arg("x").unwrap().build();
    let mut launch = command.spawn().unwrap();
    assert_eq!(LaunchState::Idle, launch.state());
    assert_eq!(b"/no/such/program".to_vec(), launch.image().program);
    assert_eq!(vec![b"/no/such/program".to_vec(), b"x".to_vec()], launch.image().argv);
    assert!(matches!(launch.step(LaunchEvent::Begin), LaunchAction::OpenPty));
    assert_eq!(LaunchState::AwaitStdoutPty, launch.state());
}

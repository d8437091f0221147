use serverwitch::action::{
    read_file, run_command, write_file, Action, ActionResponse, Effect, Output,
};
use serverwitch::error::Error;

#[test]
fn a_command_goes_to_the_shell_as_one_argument() {
    let action = Action::Command { command: String::from("echo hi") };
    assert_eq!(
        action.effect(),
        Effect::Run {
            program: String::from("/bin/bash"),
            arguments: vec![String::from("-c"), String::from("echo hi")],
        }
    );
}

#[test]
fn a_read_asks_for_the_file() {
    let action = Action::Read { path: String::from("/etc/hostname") };
    assert_eq!(action.effect(), Effect::ReadFile { path: String::from("/etc/hostname") });
}

#[test]
fn a_write_carries_the_bytes_of_its_text() {
    let action = Action::Write { path: String::from("/tmp/a"), content: String::from("héllo") };
    assert_eq!(
        action.effect(),
        Effect::WriteFile { path: String::from("/tmp/a"), data: vec![104, 195, 169, 108, 108, 111] }
    );
}

#[test]
fn echo_hi_answers_with_its_output() {
    let output = Output { exit_code: Some(0), stdout: b"hi\n".to_vec(), stderr: Vec::new() };
    assert_eq!(
        run_command(Ok(output)),
        Ok(ActionResponse::Command {
            exit_code: Some(0),
            stdout: String::from("hi\n"),
            stderr: String::new(),
        })
    );
}

#[test]
fn a_command_that_a_signal_ended_has_no_exit_code() {
    let output = Output { exit_code: None, stdout: Vec::new(), stderr: b"killed".to_vec() };
    assert_eq!(
        run_command(Ok(output)),
        Ok(ActionResponse::Command {
            exit_code: None,
            stdout: String::new(),
            stderr: String::from("killed"),
        })
    );
}

#[test]
fn a_failed_command_is_still_an_answer() {
    let output = Output { exit_code: Some(2), stdout: Vec::new(), stderr: b"no".to_vec() };
    assert_eq!(
        run_command(Ok(output)),
        Ok(ActionResponse::Command {
            exit_code: Some(2),
            stdout: String::new(),
            stderr: String::from("no"),
        })
    );
}

#[test]
fn output_that_is_not_text_is_an_error() {
    let bad_out = Output { exit_code: Some(0), stdout: vec![0xff, 0xfe], stderr: Vec::new() };
    assert_eq!(run_command(Ok(bad_out)), Err(Error::CommandOutputError));
    let bad_err = Output { exit_code: Some(0), stdout: b"ok".to_vec(), stderr: vec![0xc3] };
    assert_eq!(run_command(Ok(bad_err)), Err(Error::CommandOutputError));
}

#[test]
fn a_shell_that_does_not_start_is_an_error() {
    assert_eq!(
        run_command(Err(String::from("No such file or directory (os error 2)"))),
        Err(Error::CommandError(String::from("No such file or directory (os error 2)")))
    );
}

#[test]
fn a_read_answers_with_the_text_of_the_file() {
    assert_eq!(
        read_file(Ok("héllo\n".as_bytes().to_vec())),
        Ok(ActionResponse::Read { content: String::from("héllo\n") })
    );
    assert_eq!(read_file(Ok(Vec::new())), Ok(ActionResponse::Read { content: String::new() }));
}

#[test]
fn a_file_that_is_not_text_is_an_error() {
    assert_eq!(read_file(Ok(vec![0x80])), Err(Error::CommandOutputError));
}

#[test]
fn a_file_that_is_missing_is_an_error() {
    let reason = String::from("No such file or directory (os error 2)");
    let result = read_file(Err(reason.clone()));
    assert_eq!(result, Err(Error::CommandError(reason)));
    assert_eq!(
        result.unwrap_err().message(),
        "Error executing command: No such file or directory (os error 2)"
    );
}

#[test]
fn a_write_counts_bytes_not_characters() {
    for (content, bytes) in [("héllo", 6), ("", 0), ("🖉", 4), ("plain", 5)] {
        let action = Action::Write { path: String::from("/tmp/f"), content: String::from(content) };
        match action.effect() {
            Effect::WriteFile { data, .. } => {
                assert_eq!(write_file(&data, Ok(())), Ok(ActionResponse::Write { bytes_written: bytes }))
            }
            other => panic!("unexpected effect {:?}", other),
        }
    }
}

#[test]
fn a_write_that_fails_is_an_error() {
    assert_eq!(
        write_file(&b"text".to_vec(), Err(String::from("Permission denied (os error 13)"))),
        Err(Error::CommandError(String::from("Permission denied (os error 13)")))
    );
}

#[test]
fn what_is_written_reads_back() {
    let content = "line one\nlïne twö\n";
    let action = Action::Write { path: String::from("/tmp/f"), content: String::from(content) };
    let data = match action.effect() {
        Effect::WriteFile { data, .. } => data,
        other => panic!("unexpected effect {:?}", other),
    };
    assert_eq!(write_file(&data, Ok(())), Ok(ActionResponse::Write { bytes_written: 20 }));
    assert_eq!(read_file(Ok(data)), Ok(ActionResponse::Read { content: String::from(content) }));
}

#[test]
fn every_error_has_its_sentence() {
    assert_eq!(Error::CannotConnect(String::from("refused")).message(), "Cannot connect to server");
    assert_eq!(Error::SessionIdParseFailure.message(), "Failed to parse the session ID");
    assert_eq!(Error::NoSessionId.message(), "Failed to obtain a session ID");
    assert_eq!(
        Error::UnsupportedMessage.message(),
        "The message type sent by the server is unsupported"
    );
    assert_eq!(Error::CommandError(String::from("x")).message(), "Error executing command: x");
    assert_eq!(Error::CommandOutputError.message(), "Command output contains invalid characters");
    assert_eq!(Error::ActionSendError.message(), "Could not send the action to the tui");
    assert_eq!(
        Error::TerminalTooSmall.message(),
        "The terminal is too small to show the confirmation"
    );
}

#[test]
fn a_clone_of_an_action_is_the_action() {
    let action = Action::Write { path: String::from("p"), content: String::from("c") };
    assert_eq!(action.clone(), action);
}

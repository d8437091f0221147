use futures_channel::mpsc;
use serverwitch::action::{Action, ActionMessage, ActionResponse};
use serverwitch::error::Error;
use serverwitch::session::{
    handle_message, keepalive, response_frame, Exchange, Frame, Reaction, Session, Stage,
    KEEPALIVE_INTERVAL, MAX_CONCURRENCY, REFUSAL,
};
use serverwitch::wire::{Request, Response};

fn request(command: &str, request_id: &str) -> Request {
    Request {
        data: Action::Command { command: String::from(command) },
        request_id: String::from(request_id),
    }
}

fn refusal(request_id: &str) -> Response {
    Response {
        data: ActionResponse::Error(String::from("the operator refused to run the action")),
        error: true,
        request_id: String::from(request_id),
    }
}

fn echo_answer() -> ActionResponse {
    ActionResponse::Command { exit_code: Some(0), stdout: String::from("hi\n"), stderr: String::new() }
}

#[test]
fn the_session_constants_are_as_documented() {
    assert_eq!(KEEPALIVE_INTERVAL, 20);
    assert_eq!(MAX_CONCURRENCY, 100);
    assert_eq!(REFUSAL, "the operator refused to run the action");
}

#[test]
fn a_session_opens_with_its_identifier() {
    let first = Frame::Text(String::from(r#"{"session_id": "abc-123"}"#));
    assert_eq!(Session::new(Some(Ok(first))), Ok(Session { session_id: String::from("abc-123") }));
}

#[test]
fn a_connection_that_ends_at_once_has_no_session() {
    assert_eq!(Session::new(None), Err(Error::NoSessionId));
}

#[test]
fn a_first_frame_that_is_no_text_has_no_session() {
    assert_eq!(Session::new(Some(Ok(Frame::Binary(vec![1, 2])))), Err(Error::NoSessionId));
    assert_eq!(Session::new(Some(Ok(Frame::Ping(Vec::new())))), Err(Error::NoSessionId));
    assert_eq!(Session::new(Some(Ok(Frame::Close))), Err(Error::NoSessionId));
}

#[test]
fn a_first_text_that_spells_no_session_fails_to_parse() {
    let garbage = Frame::Text(String::from("hello"));
    assert_eq!(Session::new(Some(Ok(garbage))), Err(Error::SessionIdParseFailure));
    let other = Frame::Text(String::from(r#"{"id": "abc"}"#));
    assert_eq!(Session::new(Some(Ok(other))), Err(Error::SessionIdParseFailure));
}

#[test]
fn a_transport_that_fails_first_cannot_connect() {
    assert_eq!(
        Session::new(Some(Err(String::from("connection reset")))),
        Err(Error::CannotConnect(String::from("connection reset")))
    );
}

#[test]
fn a_session_tells_the_view_of_itself() {
    let session = Session { session_id: String::from("s-1") };
    match session.notification() {
        ActionMessage::NewSession(id) => assert_eq!(id, "s-1"),
        other => panic!("unexpected notification {:?}", other),
    }
}

#[test]
fn the_keepalive_is_a_ping_with_its_word() {
    assert_eq!(keepalive(), Frame::Ping(b"keepalive".to_vec()));
}

#[test]
fn a_text_frame_with_a_request_is_served() {
    let frame = Frame::Text(String::from(
        r#"{"data":{"action":"write","path":"/tmp/x","content":"y"},"request_id":"r9"}"#,
    ));
    assert_eq!(
        handle_message(frame),
        Ok(Reaction::Serve(Request {
            data: Action::Write { path: String::from("/tmp/x"), content: String::from("y") },
            request_id: String::from("r9"),
        }))
    );
}

#[test]
fn a_text_frame_without_a_request_fails_alone() {
    assert_eq!(handle_message(Frame::Text(String::from("{}"))), Err(Error::SessionIdParseFailure));
    assert_eq!(handle_message(Frame::Text(String::from("x"))), Err(Error::SessionIdParseFailure));
}

#[test]
fn a_ping_is_answered_with_its_bytes() {
    assert_eq!(
        handle_message(Frame::Ping(vec![1, 2, 3])),
        Ok(Reaction::Reply(Frame::Pong(vec![1, 2, 3])))
    );
}

#[test]
fn a_pong_and_a_close_ask_nothing() {
    assert_eq!(handle_message(Frame::Pong(vec![9])), Ok(Reaction::Ignore));
    assert_eq!(handle_message(Frame::Close), Ok(Reaction::Ignore));
}

#[test]
fn other_frames_are_unsupported() {
    assert_eq!(handle_message(Frame::Binary(vec![0])), Err(Error::UnsupportedMessage));
    assert_eq!(handle_message(Frame::Raw), Err(Error::UnsupportedMessage));
}

#[test]
fn a_response_travels_as_text() {
    let response = Response { data: echo_answer(), error: false, request_id: String::from("1") };
    assert_eq!(
        response_frame(&response),
        Frame::Text(String::from(
            r#"{"data":{"exit_code":0,"stdout":"hi\n","stderr":""},"error":false,"request_id":"1"}"#
        ))
    );
}

#[test]
fn without_confirmation_an_action_runs_at_once() {
    let (mut tx, mut rx) = mpsc::channel::<ActionMessage>(4);
    let mut exchange = Exchange::new(request("echo hi", "r1"), true);
    assert_eq!(exchange.stage(), Stage::Received);
    assert_eq!(exchange.runnable(), None);
    let waiting = exchange.begin(&mut tx).unwrap();
    assert!(waiting.is_none());
    let id = match rx.try_recv() {
        Ok(ActionMessage::AddAction((id, action))) => {
            assert_eq!(action, Action::Command { command: String::from("echo hi") });
            id
        }
        other => panic!("unexpected notification {:?}", other),
    };
    assert!(rx.try_recv().is_err());
    assert_eq!(exchange.stage(), Stage::Running(id));
    assert_eq!(exchange.admitted(), Some(id));
    assert_eq!(exchange.runnable(), Some(&Action::Command { command: String::from("echo hi") }));
    assert_eq!(exchange.finish(Ok(echo_answer()), &mut tx), Ok(()));
    match rx.try_recv() {
        Ok(ActionMessage::StopAction(stopped)) => assert_eq!(stopped, id),
        other => panic!("unexpected notification {:?}", other),
    }
    assert!(rx.try_recv().is_err());
    assert_eq!(exchange.stage(), Stage::Settled);
    assert_eq!(
        exchange.into_response(),
        Some(Response { data: echo_answer(), error: false, request_id: String::from("r1") })
    );
}

#[test]
fn a_confirmed_action_runs_and_is_stopped_once() {
    let (mut tx, mut rx) = mpsc::channel::<ActionMessage>(4);
    let mut exchange = Exchange::new(request("echo hi", "r2"), false);
    let mut answer = exchange.begin(&mut tx).unwrap().unwrap();
    let (id, ack) = match rx.try_recv() {
        Ok(ActionMessage::ConfirmAction((id, action, ack))) => {
            assert_eq!(action, Action::Command { command: String::from("echo hi") });
            (id, ack)
        }
        other => panic!("unexpected notification {:?}", other),
    };
    assert_eq!(exchange.stage(), Stage::Waiting(id));
    assert_eq!(exchange.runnable(), None);
    assert_eq!(answer.try_recv(), Ok(None));
    ack.send(true).unwrap();
    let decision = answer.try_recv().ok().flatten();
    assert_eq!(decision, Some(true));
    exchange.acknowledge(decision);
    assert_eq!(exchange.stage(), Stage::Running(id));
    assert_eq!(exchange.finish(Ok(echo_answer()), &mut tx), Ok(()));
    match rx.try_recv() {
        Ok(ActionMessage::StopAction(stopped)) => assert_eq!(stopped, id),
        other => panic!("unexpected notification {:?}", other),
    }
    assert!(rx.try_recv().is_err());
    assert_eq!(
        exchange.into_response(),
        Some(Response { data: echo_answer(), error: false, request_id: String::from("r2") })
    );
}

#[test]
fn a_read_of_a_missing_file_answers_with_an_error() {
    let (mut tx, mut rx) = mpsc::channel::<ActionMessage>(4);
    let read = Request {
        data: Action::Read { path: String::from("/nonexistent") },
        request_id: String::from("r3"),
    };
    let mut exchange = Exchange::new(read, false);
    let _answer = exchange.begin(&mut tx).unwrap().unwrap();
    let id = match rx.try_recv() {
        Ok(ActionMessage::ConfirmAction((id, _, _))) => id,
        other => panic!("unexpected notification {:?}", other),
    };
    exchange.acknowledge(Some(true));
    let failure = Error::CommandError(String::from("No such file or directory (os error 2)"));
    assert_eq!(exchange.finish(Err(failure), &mut tx), Ok(()));
    match rx.try_recv() {
        Ok(ActionMessage::StopAction(stopped)) => assert_eq!(stopped, id),
        other => panic!("unexpected notification {:?}", other),
    }
    assert_eq!(
        exchange.into_response(),
        Some(Response {
            data: ActionResponse::Error(String::from(
                "Error executing command: No such file or directory (os error 2)"
            )),
            error: true,
            request_id: String::from("r3"),
        })
    );
}

#[test]
fn a_refused_action_does_not_run() {
    let (mut tx, mut rx) = mpsc::channel::<ActionMessage>(4);
    let mut exchange = Exchange::new(request("rm -rf /", "r4"), false);
    let mut answer = exchange.begin(&mut tx).unwrap().unwrap();
    let ack = match rx.try_recv() {
        Ok(ActionMessage::ConfirmAction((_, _, ack))) => ack,
        other => panic!("unexpected notification {:?}", other),
    };
    ack.send(false).unwrap();
    exchange.acknowledge(answer.try_recv().ok().flatten());
    assert_eq!(exchange.stage(), Stage::Settled);
    assert_eq!(exchange.admitted(), None);
    assert_eq!(exchange.runnable(), None);
    assert_eq!(exchange.finish(Ok(echo_answer()), &mut tx), Ok(()));
    assert!(rx.try_recv().is_err());
    assert_eq!(exchange.into_response(), Some(refusal("r4")));
}

#[test]
fn a_decision_that_never_comes_is_a_refusal() {
    let (mut tx, mut rx) = mpsc::channel::<ActionMessage>(4);
    let mut exchange = Exchange::new(request("ls", "r5"), false);
    let mut answer = exchange.begin(&mut tx).unwrap().unwrap();
    match rx.try_recv() {
        Ok(ActionMessage::ConfirmAction((_, _, ack))) => drop(ack),
        other => panic!("unexpected notification {:?}", other),
    }
    assert!(answer.try_recv().is_err());
    exchange.acknowledge(answer.try_recv().ok().flatten());
    assert_eq!(exchange.stage(), Stage::Settled);
    assert_eq!(exchange.into_response(), Some(refusal("r5")));
}

#[test]
fn a_view_that_is_gone_refuses_every_action() {
    let (mut tx, rx) = mpsc::channel::<ActionMessage>(4);
    drop(rx);
    let mut asked = Exchange::new(request("ls", "r6"), false);
    assert_eq!(asked.begin(&mut tx).err(), Some(Error::ActionSendError));
    assert_eq!(asked.stage(), Stage::Settled);
    assert_eq!(asked.into_response(), Some(refusal("r6")));
    let mut unasked = Exchange::new(request("ls", "r7"), true);
    assert_eq!(unasked.begin(&mut tx).err(), Some(Error::ActionSendError));
    assert_eq!(unasked.runnable(), None);
    assert_eq!(unasked.into_response(), Some(refusal("r7")));
}

#[test]
fn a_full_mailbox_refuses_the_action() {
    let (mut tx, mut rx) = mpsc::channel::<ActionMessage>(0);
    let mut first = Exchange::new(request("one", "a"), true);
    assert!(first.begin(&mut tx).is_ok());
    let mut second = Exchange::new(request("two", "b"), true);
    assert_eq!(second.begin(&mut tx).err(), Some(Error::ActionSendError));
    assert_eq!(second.into_response(), Some(refusal("b")));
    assert!(matches!(rx.try_recv(), Ok(ActionMessage::AddAction(_))));
    assert!(rx.try_recv().is_err());
}

#[test]
fn the_answer_is_made_even_if_the_view_is_gone_by_then() {
    let (mut tx, rx) = mpsc::channel::<ActionMessage>(4);
    let mut exchange = Exchange::new(request("echo hi", "r8"), true);
    assert!(exchange.begin(&mut tx).is_ok());
    drop(rx);
    assert_eq!(exchange.finish(Ok(echo_answer()), &mut tx), Err(Error::ActionSendError));
    assert_eq!(
        exchange.into_response(),
        Some(Response { data: echo_answer(), error: false, request_id: String::from("r8") })
    );
}

#[test]
fn steps_out_of_turn_change_nothing() {
    let (mut tx, mut rx) = mpsc::channel::<ActionMessage>(4);
    let mut exchange = Exchange::new(request("ls", "r9"), false);
    exchange.acknowledge(Some(true));
    assert_eq!(exchange.stage(), Stage::Received);
    assert_eq!(exchange.finish(Ok(echo_answer()), &mut tx), Ok(()));
    assert_eq!(exchange.stage(), Stage::Received);
    assert!(rx.try_recv().is_err());
    let _answer = exchange.begin(&mut tx).unwrap().unwrap();
    let id = match exchange.stage() {
        Stage::Waiting(id) => id,
        other => panic!("unexpected stage {:?}", other),
    };
    assert!(matches!(exchange.begin(&mut tx), Ok(None)));
    exchange.announced(77, true);
    assert_eq!(exchange.stage(), Stage::Waiting(id));
    assert!(matches!(rx.try_recv(), Ok(ActionMessage::ConfirmAction(_))));
    assert!(rx.try_recv().is_err());
    assert_eq!(exchange.into_response(), None);
}

#[test]
fn an_announcement_decides_the_next_stage() {
    let mut unasked = Exchange::new(request("ls", "a"), true);
    unasked.announced(5, true);
    assert_eq!(unasked.stage(), Stage::Running(5));
    let mut asked = Exchange::new(request("ls", "b"), false);
    asked.announced(6, true);
    assert_eq!(asked.stage(), Stage::Waiting(6));
    asked.acknowledge(Some(true));
    assert_eq!(asked.stage(), Stage::Running(6));
    let mut lost = Exchange::new(request("ls", "c"), false);
    lost.announced(7, false);
    assert_eq!(lost.stage(), Stage::Settled);
    assert_eq!(lost.into_response(), Some(refusal("c")));
}

#[test]
fn identifiers_are_new_for_every_action() {
    let (mut tx, mut rx) = mpsc::channel::<ActionMessage>(4);
    let mut first = Exchange::new(request("ls", "a"), true);
    let mut second = Exchange::new(request("ls", "b"), true);
    assert!(first.begin(&mut tx).is_ok());
    assert!(second.begin(&mut tx).is_ok());
    assert!(rx.try_recv().is_ok());
    assert!(rx.try_recv().is_ok());
    assert_ne!(first.stage(), second.stage());
}

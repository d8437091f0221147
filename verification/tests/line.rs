use serverwitch::action::{Action, State, StatefulAction};
use serverwitch::line::{spinner_symbol, Color, Line, Span, SPINNER_FRAMES};

fn span(content: &str, foreground: Option<Color>, background: Option<Color>) -> Span {
    Span { content: String::from(content), foreground, background }
}

fn row(state: Span, kind: &str, content: Span) -> Line {
    Line {
        spans: vec![
            state,
            span(" │ ", Some(Color::DarkGray), None),
            span(kind, Some(Color::Cyan), Some(Color::Black)),
            span(" ", Some(Color::White), None),
            content,
        ],
    }
}

#[test]
fn a_running_command_has_a_blue_check() {
    let action = StatefulAction {
        action: Action::Command { command: String::from("ls -lah") },
        state: State::Running,
    };
    assert_eq!(
        action.line(),
        row(span("✔", Some(Color::Blue), None), "> ", span("ls -lah", Some(Color::White), None))
    );
}

#[test]
fn a_finished_read_has_a_green_check() {
    let action = StatefulAction {
        action: Action::Read { path: String::from("/etc/hosts") },
        state: State::Finished,
    };
    assert_eq!(
        action.line(),
        row(span("✔", Some(Color::Green), None), "¶ ", span("/etc/hosts", Some(Color::White), None))
    );
}

#[test]
fn a_canceled_write_has_a_red_cross_and_shows_path_and_text() {
    let action = StatefulAction {
        action: Action::Write { path: String::from("/tmp/a"), content: String::from("some text") },
        state: State::Canceled,
    };
    assert_eq!(
        action.line(),
        row(
            span("✖", Some(Color::Red), None),
            "🖉 ",
            span("/tmp/a some text", Some(Color::White), None)
        )
    );
}

#[test]
fn a_pending_action_has_a_question_mark_and_plain_text() {
    let action = StatefulAction {
        action: Action::Command { command: String::from("cat /etc/passwd") },
        state: State::Pending,
    };
    assert_eq!(
        action.line(),
        row(span("?", None, None), "> ", span("cat /etc/passwd", None, None))
    );
}

#[test]
fn only_a_running_action_shows_the_busy_sign() {
    let running = StatefulAction {
        action: Action::Command { command: String::from("sleep 9") },
        state: State::Running,
    };
    assert_eq!(
        running.live_line(2),
        row(span("⠙", Some(Color::Blue), None), "> ", span("sleep 9", Some(Color::White), None))
    );
    let finished = StatefulAction {
        action: Action::Command { command: String::from("sleep 9") },
        state: State::Finished,
    };
    assert_eq!(finished.live_line(2), finished.line());
}

#[test]
fn the_busy_sign_has_six_pictures() {
    assert_eq!(SPINNER_FRAMES, 6);
    let pictures: Vec<&str> = (0..6).map(spinner_symbol).collect();
    assert_eq!(pictures, vec!["⠇", "⠋", "⠙", "⠸", "⠴", "⠦"]);
    assert_eq!(spinner_symbol(6), "⠇");
    assert_eq!(spinner_symbol(11), "⠦");
}

#[test]
fn a_plain_line_has_one_span() {
    assert_eq!(Line::plain("hello"), Line { spans: vec![span("hello", None, None)] });
    assert_eq!(Span::styled("x", Some(Color::Red), None), span("x", Some(Color::Red), None));
}

#[test]
fn an_action_says_what_it_is() {
    assert_eq!(Action::Command { command: String::from("ls") }.summary(), "ls");
    assert_eq!(Action::Read { path: String::from("/a") }.summary(), "/a");
    assert_eq!(
        Action::Write { path: String::from("/a"), content: String::from("b c") }.summary(),
        "/a b c"
    );
    assert_eq!(Action::Command { command: String::new() }.kind_sign(), "> ");
    assert_eq!(Action::Read { path: String::new() }.kind_sign(), "¶ ");
    assert_eq!(
        Action::Write { path: String::new(), content: String::new() }.kind_sign(),
        "🖉 "
    );
}

//! One row of the view as styled text.

use crate::action::{Action, ActionView, State, StatefulAction, StatefulActionView};
use vstd::prelude::*;

verus! {

/// The colours that rows are painted in.
#[derive(Debug, Clone, Copy, PartialEq, Eq, Structural)]
pub enum Color {
    Black,
    Red,
    Green,
    Blue,
    Cyan,
    White,
    DarkGray,
}

/// A stretch of text in one style. A colour that is absent is the terminal's own.
#[derive(Debug, PartialEq, Eq)]
pub struct Span {
    pub content: String,
    pub foreground: Option<Color>,
    pub background: Option<Color>,
}

/// A span as a value of mathematics.
pub struct SpanView {
    pub content: Seq<char>,
    pub foreground: Option<Color>,
    pub background: Option<Color>,
}

impl View for Span {
    type V = SpanView;

    open spec fn view(&self) -> SpanView {
        SpanView {
            content: self.content@,
            foreground: self.foreground,
            background: self.background,
        }
    }
}

/// A line of the terminal: its spans from left to right.
#[derive(Debug, PartialEq, Eq)]
pub struct Line {
    pub spans: Vec<Span>,
}

impl View for Line {
    type V = Seq<SpanView>;

    open spec fn view(&self) -> Seq<SpanView> {
        self.spans@.map_values(|span: Span| span@)
    }
}

/// How many pictures the busy sign cycles through.
pub const SPINNER_FRAMES: usize = 6;

/// The picture of the busy sign at `index` of its cycle.
pub open spec fn spinner(index: int) -> Seq<char> {
    let frame = index % 6;
    if frame == 0 {
        "⠇"@
    } else if frame == 1 {
        "⠋"@
    } else if frame == 2 {
        "⠙"@
    } else if frame == 3 {
        "⠸"@
    } else if frame == 4 {
        "⠴"@
    } else {
        "⠦"@
    }
}

/// The sign for a state: a check in blue while running and in green when
/// finished, a cross in red when canceled, a question mark while pending.
pub open spec fn state_span(state: State) -> SpanView {
    match state {
        State::Running => SpanView {
            content: "✔"@,
            foreground: Some(Color::Blue),
            background: None,
        },
        State::Finished => SpanView {
            content: "✔"@,
            foreground: Some(Color::Green),
            background: None,
        },
        State::Pending => SpanView { content: "?"@, foreground: None, background: None },
        State::Canceled => SpanView {
            content: "✖"@,
            foreground: Some(Color::Red),
            background: None,
        },
    }
}

/// The sign for the kind of an action.
pub open spec fn kind_sign(action: ActionView) -> Seq<char> {
    match action {
        ActionView::Command { .. } => "> "@,
        ActionView::Read { .. } => "¶ "@,
        ActionView::Write { .. } => "🖉 "@,
    }
}

/// What a row says of its action: the command, the path, or the path and
/// the text to write with a blank between them.
pub open spec fn summary(action: ActionView) -> Seq<char> {
    match action {
        ActionView::Command { command } => command,
        ActionView::Read { path } => path,
        ActionView::Write { path, content } => path + " "@ + content,
    }
}

/// The row of an action: the sign of its state, a bar, the sign of its kind,
/// a blank, and what it says, in white unless it still waits.
pub open spec fn row_line(row: StatefulActionView) -> Seq<SpanView> {
    seq![
        state_span(row.state),
        SpanView { content: " │ "@, foreground: Some(Color::DarkGray), background: None },
        SpanView {
            content: kind_sign(row.action),
            foreground: Some(Color::Cyan),
            background: Some(Color::Black),
        },
        SpanView { content: " "@, foreground: Some(Color::White), background: None },
        SpanView {
            content: summary(row.action),
            foreground: if row.state == State::Pending {
                None
            } else {
                Some(Color::White)
            },
            background: None,
        },
    ]
}

/// The row of a running action while the view is live: the busy sign at
/// `index` takes the place of the check. Other rows are as `row_line` has them.
pub open spec fn live_line(row: StatefulActionView, index: int) -> Seq<SpanView> {
    if row.state == State::Running {
        row_line(row).update(
            0,
            SpanView { content: spinner(index), foreground: Some(Color::Blue), background: None },
        )
    } else {
        row_line(row)
    }
}

/// A line of plain text.
pub open spec fn plain_line(text: Seq<char>) -> Seq<SpanView> {
    seq![SpanView { content: text, foreground: None, background: None }]
}

/// The picture of the busy sign at `index` of its cycle.
pub fn spinner_symbol(index: usize) -> (symbol: &'static str)
    ensures
        symbol@ == spinner(index as int),
{
    let frame = index % 6;
    if frame == 0 {
        "⠇"
    } else if frame == 1 {
        "⠋"
    } else if frame == 2 {
        "⠙"
    } else if frame == 3 {
        "⠸"
    } else if frame == 4 {
        "⠴"
    } else {
        "⠦"
    }
}

impl Span {
    /// A span of `text` in the given colours.
    pub fn styled(text: &str, foreground: Option<Color>, background: Option<Color>) -> (span: Span)
        ensures
            span@ == (SpanView { content: text@, foreground, background }),
    {
        Span { content: text.to_owned(), foreground, background }
    }
}

impl Line {
    /// A line of plain text.
    pub fn plain(text: &str) -> (line: Line)
        ensures
            line@ == plain_line(text@),
    {
        let mut spans: Vec<Span> = Vec::new();
        spans.push(Span::styled(text, None, None));
        let line = Line { spans };
        assert(line@ =~= plain_line(text@));
        line
    }
}

impl Action {
    /// What a row says of the action.
    pub fn summary(&self) -> (text: String)
        ensures
            text@ == summary(self@),
    {
        match self {
            Action::Command { command } => command.clone(),
            Action::Read { path } => path.clone(),
            Action::Write { path, content } => {
                let mut text = path.clone();
                text.append(" ");
                text.append(content.as_str());
                text
            },
        }
    }

    /// The sign for the kind of the action.
    pub fn kind_sign(&self) -> (sign: &'static str)
        ensures
            sign@ == kind_sign(self@),
    {
        match self {
            Action::Command { .. } => "> ",
            Action::Read { .. } => "¶ ",
            Action::Write { .. } => "🖉 ",
        }
    }
}

impl StatefulAction {
    /// The row of the action as it stays in the history of the terminal.
    pub fn line(&self) -> (line: Line)
        ensures
            line@ == row_line(self@),
    {
        let state = match self.state {
            State::Running => Span::styled("✔", Some(Color::Blue), None),
            State::Finished => Span::styled("✔", Some(Color::Green), None),
            State::Pending => Span::styled("?", None, None),
            State::Canceled => Span::styled("✖", Some(Color::Red), None),
        };
        let content = Span {
            content: self.action.summary(),
            foreground: if self.state == State::Pending {
                None
            } else {
                Some(Color::White)
            },
            background: None,
        };
        let mut spans: Vec<Span> = Vec::new();
        spans.push(state);
        spans.push(Span::styled(" │ ", Some(Color::DarkGray), None));
        spans.push(Span::styled(self.action.kind_sign(), Some(Color::Cyan), Some(Color::Black)));
        spans.push(Span::styled(" ", Some(Color::White), None));
        spans.push(content);
        let line = Line { spans };
        assert(line@ =~= row_line(self@));
        line
    }

    /// The row of the action while the view is live, with the busy sign at
    /// `index` of its cycle where the action runs.
    pub fn live_line(&self, index: usize) -> (line: Line)
        ensures
            line@ == live_line(self@, index as int),
    {
        let mut line = self.line();
        assert(line.spans@.len() == row_line(self@).len());
        if self.state == State::Running {
            let busy = Span::styled(spinner_symbol(index), Some(Color::Blue), None);
            line.spans.set(0, busy);
            assert(line@ =~= live_line(self@, index as int));
        }
        line
    }
}

} // verus!

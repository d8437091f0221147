//! The state of the live view: the rows on screen, the confirmations that
//! wait for the operator, and the area of the terminal that the view owns.
//!
//! The view is driven by events. Each event changes the state and yields
//! what has to be done to the terminal before the next frame is drawn.

use crate::action::{
    Action, ActionMessage, ActionView, Notice, State, StatefulAction, StatefulActionView,
};
use crate::channel::answer;
use crate::error::Error;
use crate::geometry::{fit, least, lemma_plan, plan, Area, Size};
use crate::line::{live_line, plain_line, row_line, Line, SpanView, SPINNER_FRAMES};
use std::collections::VecDeque;
use vstd::prelude::*;

verus! {

/// The period of the tick that moves the busy sign, in milliseconds.
pub const TICK_MS: u64 = 1000;

/// The rows kept free below the rows of the view while a confirmation waits:
/// one for the action, one for the question.
pub const CONFIRM_MARGIN: u16 = 2;

/// The modifier bits of a key pressed together with Control and nothing else.
pub const CONTROL: u8 = 2;

/// The question put to the operator.
pub const QUESTION: &'static str = "Are you sure you want to do this? [y/n]";

/// What precedes the identifier of a session on its row.
pub const SESSION_LABEL: &'static str = "Session id: ";

/// The key of a key event, as far as the view tells keys apart.
#[derive(Debug, Clone, Copy, PartialEq, Eq, Structural)]
pub enum KeyCode {
    Char(char),
    Other,
}

/// A key with the modifiers held down with it, as a set of bits.
#[derive(Debug, Clone, Copy, PartialEq, Eq, Structural)]
pub struct KeyEvent {
    pub code: KeyCode,
    pub modifiers: u8,
}

/// Something that happened at the terminal.
#[derive(Debug, Clone, Copy, PartialEq, Eq, Structural)]
pub enum TerminalEvent {
    /// A key went down (`pressed`), or it repeats or went up.
    Key { key: KeyEvent, pressed: bool },
    /// The terminal now has this many columns and rows.
    Resize(u16, u16),
    /// Anything else: the mouse, the focus, pasted text.
    Other,
}

/// What the view reacts to.
#[derive(Debug)]
pub enum Event {
    Tick,
    Key(KeyEvent),
    Resize(u16, u16),
    Message(ActionMessage),
}

/// An event as a value of mathematics.
pub enum EventView {
    Tick,
    Key(KeyEvent),
    Resize(u16, u16),
    Message(Notice),
}

impl View for Event {
    type V = EventView;

    open spec fn view(&self) -> EventView {
        match self {
            Event::Tick => EventView::Tick,
            Event::Key(key) => EventView::Key(*key),
            Event::Resize(columns, rows) => EventView::Resize(*columns, *rows),
            Event::Message(message) => EventView::Message(message@),
        }
    }
}

/// A row of the view.
#[derive(Debug, PartialEq, Eq)]
pub enum Row {
    /// An action under its identifier.
    Action(u128, StatefulAction),
    /// A line of information.
    Info(String),
}

/// A row as a value of mathematics.
pub enum RowView {
    Action(u128, StatefulActionView),
    Info(Seq<char>),
}

impl View for Row {
    type V = RowView;

    open spec fn view(&self) -> RowView {
        match self {
            Row::Action(id, action) => RowView::Action(*id, action@),
            Row::Info(text) => RowView::Info(text@),
        }
    }
}

impl RowView {
    /// Whether the row shows the action with this identifier.
    pub open spec fn shows(self, id: u128) -> bool {
        self matches RowView::Action(own, _) && own == id
    }

    /// Whether the row shows an action that waits for the operator.
    pub open spec fn waits(self) -> bool {
        self matches RowView::Action(_, action) && action.state == State::Pending
    }

    /// The row once its action has come to its end: a running action is
    /// finished, and nothing else changes.
    pub open spec fn stopped(self) -> RowView {
        match self {
            RowView::Action(id, action) => if action.state == State::Running {
                RowView::Action(
                    id,
                    StatefulActionView { action: action.action, state: State::Finished },
                )
            } else {
                self
            },
            RowView::Info(_) => self,
        }
    }

    /// The row as it goes into the history of the terminal.
    pub open spec fn line(self) -> Seq<SpanView> {
        match self {
            RowView::Action(_, action) => row_line(action),
            RowView::Info(text) => plain_line(text),
        }
    }

    /// The row as it is drawn while the view is live, with the busy sign at
    /// `index` of its cycle.
    pub open spec fn live(self, index: int) -> Seq<SpanView> {
        match self {
            RowView::Action(_, action) => live_line(action, index),
            RowView::Info(text) => plain_line(text),
        }
    }
}

impl Row {
    /// The row as it goes into the history of the terminal.
    pub fn line(&self) -> (line: Line)
        ensures
            line@ == self@.line(),
    {
        match self {
            Row::Action(_, action) => action.line(),
            Row::Info(text) => Line::plain(text.as_str()),
        }
    }

    /// The row as it is drawn while the view is live.
    pub fn live(&self, index: usize) -> (line: Line)
        ensures
            line@ == self@.live(index as int),
    {
        match self {
            Row::Action(_, action) => action.live_line(index),
            Row::Info(text) => Line::plain(text.as_str()),
        }
    }
}

/// An action that waits for the operator, with the channel for the decision.
#[derive(Debug)]
struct Pending {
    id: u128,
    action: Action,
    ack: futures_channel::oneshot::Sender<bool>,
}

impl View for Pending {
    type V = (u128, ActionView);

    closed spec fn view(&self) -> (u128, ActionView) {
        (self.id, self.action@)
    }
}

/// Something to do to the terminal.
#[derive(Debug, PartialEq, Eq)]
pub enum Paint {
    /// Put the cursor at the start of this row and clear from there to the
    /// end of the screen.
    ClearBelow(u16),
    /// Scroll the terminal up by this many rows.
    ScrollUp(u16),
    /// Draw `line` into `area`, then scroll the terminal up by the height of
    /// the area, so that the line passes into the history.
    InsertBefore { area: Area, line: Line },
}

/// A terminal operation as a value of mathematics.
pub enum PaintView {
    ClearBelow(u16),
    ScrollUp(u16),
    InsertBefore { area: Area, line: Seq<SpanView> },
}

impl View for Paint {
    type V = PaintView;

    open spec fn view(&self) -> PaintView {
        match self {
            Paint::ClearBelow(row) => PaintView::ClearBelow(*row),
            Paint::ScrollUp(rows) => PaintView::ScrollUp(*rows),
            Paint::InsertBefore { area, line } => PaintView::InsertBefore {
                area: *area,
                line: line@,
            },
        }
    }
}

/// The rows of a queue as values of mathematics.
pub open spec fn row_views(rows: Seq<Row>) -> Seq<RowView> {
    rows.map_values(|row: Row| row@)
}

/// The operations of a list as values of mathematics.
pub open spec fn paint_views(paints: Seq<Paint>) -> Seq<PaintView> {
    paints.map_values(|paint: Paint| paint@)
}

/// Whether `index` is the first row of `rows` that shows the action `id`.
pub open spec fn is_first(rows: Seq<RowView>, id: u128, index: int) -> bool {
    &&& 0 <= index < rows.len()
    &&& rows[index].shows(id)
    &&& forall|earlier: int| 0 <= earlier < index ==> !(#[trigger] rows[earlier]).shows(id)
}

/// The rows after the action `id` has come to its end: the first row that
/// shows it is stopped. Where no row shows it, nothing changes.
pub open spec fn stop_row(rows: Seq<RowView>, id: u128) -> Seq<RowView> {
    if exists|index: int| is_first(rows, id, index) {
        let index = choose|index: int| is_first(rows, id, index);
        rows.update(index, rows[index].stopped())
    } else {
        rows
    }
}

/// The operations that reclaim `count` rows above the viewport: for each, the
/// margin is cleared and the terminal scrolls up by one row.
pub open spec fn reclaim_paints(count: nat, clear: u16) -> Seq<PaintView>
    decreases count,
{
    if count == 0 {
        Seq::empty()
    } else {
        reclaim_paints((count - 1) as nat, clear) + seq![
            PaintView::ClearBelow(clear),
            PaintView::ScrollUp(1),
        ]
    }
}

/// The operations that send `rows` into the history, the first of them
/// first: for each, the margin is cleared and the row is drawn into `area`
/// and scrolled out.
pub open spec fn evict_paints(rows: Seq<RowView>, clear: u16, area: Area) -> Seq<PaintView>
    decreases rows.len(),
{
    if rows.len() == 0 {
        Seq::empty()
    } else {
        evict_paints(rows.drop_last(), clear, area) + seq![
            PaintView::ClearBelow(clear),
            PaintView::InsertBefore { area, line: rows.last().line() },
        ]
    }
}

/// Where the busy sign is after a tick: at the next picture of its cycle,
/// and at the first again after the last.
pub open spec fn next_frame(index: usize) -> usize {
    if index + 1 < SPINNER_FRAMES {
        (index + 1) as usize
    } else {
        0
    }
}

/// The state of the view as a value of mathematics.
pub struct AppView {
    /// The rows on screen, the oldest first.
    pub rows: Seq<RowView>,
    /// The actions that wait for the operator, in the order they came in.
    pub pending: Seq<(u128, ActionView)>,
    /// The session that the view was told of last.
    pub session_id: Option<Seq<char>>,
    /// The part of the terminal that the view owns.
    pub area: Area,
    pub should_quit: bool,
    pub spinner_index: usize,
}

impl AppView {
    /// Whether no row shows an action that still waits for the operator.
    pub open spec fn no_row_waits(self) -> bool {
        forall|index: int| 0 <= index < self.rows.len() ==> !(#[trigger] self.rows[index]).waits()
    }

    /// The rows to keep free below the rows of the view.
    pub open spec fn margin(self) -> u16 {
        if self.pending.len() > 0 {
            CONFIRM_MARGIN
        } else {
            0
        }
    }

    /// The state after the operator has decided on the first waiting action:
    /// it leaves the queue and becomes the last row, in the state given.
    /// Where nothing waits, nothing changes.
    pub open spec fn decided(self, state: State) -> AppView {
        if self.pending.len() > 0 {
            AppView {
                rows: self.rows.push(
                    RowView::Action(
                        self.pending[0].0,
                        StatefulActionView { action: self.pending[0].1, state },
                    ),
                ),
                pending: self.pending.drop_first(),
                ..self
            }
        } else {
            self
        }
    }

    /// The state after a key.
    pub open spec fn keyed(self, key: KeyEvent) -> AppView {
        if key.code == KeyCode::Char('q') {
            AppView { should_quit: true, ..self }
        } else if key.code == KeyCode::Char('c') {
            if key.modifiers == CONTROL {
                AppView { should_quit: true, ..self }
            } else {
                self
            }
        } else if key.code == KeyCode::Char('y') {
            self.decided(State::Running)
        } else if key.code == KeyCode::Char('n') {
            self.decided(State::Canceled)
        } else {
            self
        }
    }

    /// The decision that a key sends to the session: the identifier of the
    /// action decided on, and whether it may run.
    pub open spec fn verdict(self, key: KeyEvent) -> Option<(u128, bool)> {
        if self.pending.len() > 0 && key.code == KeyCode::Char('y') {
            Some((self.pending[0].0, true))
        } else if self.pending.len() > 0 && key.code == KeyCode::Char('n') {
            Some((self.pending[0].0, false))
        } else {
            None
        }
    }

    /// The state after the terminal has changed to `columns` by `rows`
    /// cells: the area spans the new width and is cut down to the new height.
    pub open spec fn resized(self, columns: u16, rows: u16) -> AppView {
        AppView {
            area: (Area { x: 0, y: self.area.y, width: columns, height: self.area.height }).clamped(
                rows,
            ),
            ..self
        }
    }

    /// The state after a notification from the session.
    pub open spec fn notified(self, notice: Notice) -> AppView {
        match notice {
            Notice::Confirm(id, action) => AppView {
                pending: self.pending.push((id, action)),
                ..self
            },
            Notice::Add(id, action) => AppView {
                rows: self.rows.push(
                    RowView::Action(id, StatefulActionView { action, state: State::Running }),
                ),
                ..self
            },
            Notice::Stop(id) => AppView { rows: stop_row(self.rows, id), ..self },
            Notice::Session(session) => AppView {
                rows: self.rows.push(RowView::Info(SESSION_LABEL@ + session)),
                session_id: Some(session),
                ..self
            },
        }
    }

    /// The state after an event, before the rows are fitted into the terminal.
    pub open spec fn handled(self, event: EventView) -> AppView {
        match event {
            EventView::Tick => AppView { spinner_index: next_frame(self.spinner_index), ..self },
            EventView::Key(key) => self.keyed(key),
            EventView::Resize(columns, rows) => self.resized(columns, rows),
            EventView::Message(notice) => self.notified(notice),
        }
    }

    /// How many of the oldest rows leave the view when it is fitted into a
    /// terminal of this size.
    pub open spec fn evicted(self, terminal: Size) -> int {
        let area = self.area.clamped(terminal.height);
        plan(
            area.y as int,
            area.height as int,
            terminal.height as int,
            self.rows.len() as int,
            self.margin() as int,
        ).evict
    }

    /// How often the terminal scrolls to make room above the view when the
    /// view is fitted into a terminal of this size.
    pub open spec fn reclaimed(self, terminal: Size) -> int {
        let area = self.area.clamped(terminal.height);
        plan(
            area.y as int,
            area.height as int,
            terminal.height as int,
            self.rows.len() as int,
            self.margin() as int,
        ).reclaim
    }

    /// The state after the rows have been fitted into a terminal of this
    /// size: the area is cut down to the terminal, grows and moves up as far
    /// as it has to, and the rows that still do not fit are gone.
    pub open spec fn fitted(self, terminal: Size) -> AppView {
        AppView {
            area: self.area.clamped(terminal.height).fitted(
                terminal.height,
                self.rows.len() as int,
                self.margin() as int,
            ),
            rows: self.rows.skip(self.evicted(terminal)),
            ..self
        }
    }

    /// What fitting the rows does to the terminal, in order.
    pub open spec fn paints(self, terminal: Size) -> Seq<PaintView> {
        let clear = (terminal.height - self.margin()) as u16;
        let area = self.fitted(terminal).area;
        reclaim_paints(self.reclaimed(terminal) as nat, clear) + evict_paints(
            self.rows.take(self.evicted(terminal)),
            clear,
            Area { x: area.x, y: area.y, width: area.width, height: 1 },
        )
    }

    /// Whether the rows and the margin have room in the area, and the area in
    /// a terminal of this size.
    pub open spec fn fits(self, terminal: Size) -> bool {
        &&& self.area.within(terminal.height)
        &&& self.rows.len() + self.margin() <= self.area.height
    }
}

/// The lines of a list as values of mathematics.
pub open spec fn line_views(lines: Seq<Line>) -> Seq<Seq<SpanView>> {
    lines.map_values(|line: Line| line@)
}

/// What a frame shows.
#[derive(Debug, PartialEq, Eq)]
pub struct Screen {
    /// The part of the terminal to draw into.
    pub area: Area,
    /// The height of the list of rows.
    pub list_height: u16,
    /// The height of what stands below the list.
    pub margin: u16,
    /// The rows of the list, from the top.
    pub rows: Vec<Line>,
    /// What stands below the list: the action that waits and the question,
    /// or nothing.
    pub confirmation: Vec<Line>,
}

/// A frame as a value of mathematics.
pub struct ScreenView {
    pub area: Area,
    pub list_height: u16,
    pub margin: u16,
    pub rows: Seq<Seq<SpanView>>,
    pub confirmation: Seq<Seq<SpanView>>,
}

impl View for Screen {
    type V = ScreenView;

    open spec fn view(&self) -> ScreenView {
        ScreenView {
            area: self.area,
            list_height: self.list_height,
            margin: self.margin,
            rows: line_views(self.rows@),
            confirmation: line_views(self.confirmation@),
        }
    }
}

/// How the terminal is left when the view ends.
#[derive(Debug, Clone, Copy, PartialEq, Eq, Structural)]
pub struct Closing {
    /// The row where the cursor goes, in the first column.
    pub cursor_row: u16,
    /// Whether the terminal scrolls up by one row, so that the prompt of the
    /// shell does not land on the last row of the view.
    pub scroll: bool,
}

impl AppView {
    /// The row `index` as the next frame shows it: with the busy sign while
    /// the view is live, as it goes into the history once the view ends.
    pub open spec fn drawn(self, index: int) -> Seq<SpanView> {
        if self.should_quit {
            self.rows[index].line()
        } else {
            self.rows[index].live(self.spinner_index as int)
        }
    }

    /// What the next frame shows.
    pub open spec fn screen(self) -> ScreenView {
        ScreenView {
            area: self.area,
            list_height: least(self.rows.len() as int, u16::MAX as int) as u16,
            margin: self.margin(),
            rows: Seq::new(self.rows.len(), |index: int| self.drawn(index)),
            confirmation: if self.pending.len() > 0 {
                seq![
                    row_line(
                        StatefulActionView { action: self.pending[0].1, state: State::Pending },
                    ),
                    plain_line(QUESTION@),
                ]
            } else {
                Seq::empty()
            },
        }
    }

    /// How the terminal is left when the view ends in a terminal of this size.
    pub open spec fn closing(self, terminal: Size) -> Closing {
        let bottom = least(self.area.end(), u16::MAX as int);
        Closing {
            cursor_row: bottom as u16,
            scroll: self.area.height > 0 && bottom == terminal.height,
        }
    }
}

/// The state of the view.
#[derive(Debug)]
pub struct App {
    /// The rows on screen, the oldest first.
    lines: VecDeque<Row>,
    /// The actions that wait for the operator. Only the first is shown and
    /// can be decided on.
    pending_actions: VecDeque<Pending>,
    /// The session that the view was told of last.
    session_id: Option<String>,
    /// The part of the terminal that the view owns. It grows as rows come in
    /// and stops at the borders of the terminal.
    area: Area,
    /// Whether the view is to end after the next frame.
    should_quit: bool,
    /// Where the busy sign is in its cycle.
    spinner_index: usize,
}

impl View for App {
    type V = AppView;

    closed spec fn view(&self) -> AppView {
        AppView {
            rows: row_views(self.lines@),
            pending: self.pending_actions@.map_values(|pending: Pending| pending@),
            session_id: match self.session_id {
                Some(session) => Some(session@),
                None => None,
            },
            area: self.area,
            should_quit: self.should_quit,
            spinner_index: self.spinner_index,
        }
    }
}

/// What an update has done besides changing the state.
#[derive(Debug)]
pub struct Update {
    /// What to do to the terminal before the next frame, in order.
    pub paints: Vec<Paint>,
    /// The decision that went to the session, if the event was one.
    pub verdict: Option<(u128, bool)>,
}

impl App {
    /// A view without rows that owns `area`.
    pub fn new(area: Area) -> (app: App)
        ensures
            app@ == (AppView {
                rows: Seq::empty(),
                pending: Seq::empty(),
                session_id: None,
                area,
                should_quit: false,
                spinner_index: 0,
            }),
    {
        let app = App {
            lines: VecDeque::new(),
            pending_actions: VecDeque::new(),
            session_id: None,
            area,
            should_quit: false,
            spinner_index: 0,
        };
        assert(app@.rows =~= Seq::empty());
        assert(app@.pending =~= Seq::empty());
        app
    }

    /// Whether the view is to end.
    pub fn should_quit(&self) -> (quit: bool)
        ensures
            quit == self@.should_quit,
    {
        self.should_quit
    }

    /// The part of the terminal that the view owns.
    pub fn area(&self) -> (area: Area)
        ensures
            area == self@.area,
    {
        self.area
    }

    /// Where the busy sign is in its cycle.
    pub fn spinner_index(&self) -> (index: usize)
        ensures
            index == self@.spinner_index,
    {
        self.spinner_index
    }

    /// The session that the view was told of last.
    pub fn session_id(&self) -> (session: Option<&String>)
        ensures
            match self@.session_id {
                Some(expected) => session matches Some(found) && found@ == expected,
                None => session is None,
            },
    {
        self.session_id.as_ref()
    }

    /// The row at `index`, counted from the oldest, if there is one.
    pub fn row(&self, index: usize) -> (row: Option<&Row>)
        ensures
            row is Some <==> index < self@.rows.len(),
            row matches Some(found) ==> found@ == self@.rows[index as int],
    {
        if index < self.lines.len() {
            let found = &self.lines[index];
            assert(row_views(self.lines@)[index as int] == found@);
            Some(found)
        } else {
            None
        }
    }

    /// How many rows the view shows.
    pub fn row_count(&self) -> (count: usize)
        ensures
            count == self@.rows.len(),
    {
        self.lines.len()
    }

    /// How many actions wait for the operator.
    pub fn pending_count(&self) -> (count: usize)
        ensures
            count == self@.pending.len(),
    {
        self.pending_actions.len()
    }

    /// The rows to keep free below the rows of the view: two while a
    /// confirmation waits, none otherwise.
    pub fn bottom_margin(&self) -> (margin: u16)
        ensures
            margin == self@.margin(),
    {
        if self.pending_actions.len() > 0 {
            CONFIRM_MARGIN
        } else {
            0
        }
    }

    /// Takes the first waiting action out of the queue and makes it the last
    /// row, in the state given. Hands back its identifier and the channel for
    /// the decision, or nothing where no action waits.
    fn decide(&mut self, state: State) -> (decided: Option<
        (u128, futures_channel::oneshot::Sender<bool>),
    >)
        ensures
            final(self)@ == old(self)@.decided(state),
            decided is Some <==> old(self)@.pending.len() > 0,
            decided matches Some((id, _)) ==> id == old(self)@.pending[0].0,
    {
        let ghost before = self@;
        match self.pending_actions.pop_front() {
            Some(pending) => {
                let row = Row::Action(pending.id, StatefulAction { action: pending.action, state });
                self.lines.push_back(row);
                assert(self@.rows =~= before.decided(state).rows);
                assert(self@.pending =~= before.decided(state).pending);
                Some((pending.id, pending.ack))
            },
            None => {
                assert(self@.pending =~= before.pending);
                None
            },
        }
    }

    /// Reacts to a key: `q` and Control-C end the view, `y` and `n` decide on
    /// the first waiting action and tell the session so. Other keys do nothing.
    /// Hands back the decision that went out, if there was one.
    fn press(&mut self, key: KeyEvent) -> (verdict: Option<(u128, bool)>)
        ensures
            final(self)@ == old(self)@.keyed(key),
            verdict == old(self)@.verdict(key),
    {
        match key.code {
            KeyCode::Char(c) => {
                if c == 'q' {
                    self.should_quit = true;
                    None
                } else if c == 'c' {
                    if key.modifiers == CONTROL {
                        self.should_quit = true;
                    }
                    None
                } else if c == 'y' {
                    match self.decide(State::Running) {
                        Some((id, ack)) => {
                            answer(ack, true);
                            Some((id, true))
                        },
                        None => None,
                    }
                } else if c == 'n' {
                    match self.decide(State::Canceled) {
                        Some((id, ack)) => {
                            answer(ack, false);
                            Some((id, false))
                        },
                        None => None,
                    }
                } else {
                    None
                }
            },
            KeyCode::Other => None,
        }
    }

    /// Marks the first row that shows the action `id` as finished, if it
    /// runs. Where no row shows it, because it has left the view or never was
    /// in it, nothing changes.
    fn stop(&mut self, id: u128)
        ensures
            final(self)@ == (AppView { rows: stop_row(old(self)@.rows, id), ..old(self)@ }),
    {
        let ghost before = self@;
        let ghost lines = self.lines@;
        let count = self.lines.len();
        let mut index: usize = 0;
        while index < count
            invariant
                index <= count,
                count == self.lines@.len(),
                self@ == before,
                before == old(self)@,
                self.lines@ == lines,
                forall|earlier: int|
                    0 <= earlier < index ==> !(#[trigger] before.rows[earlier]).shows(id),
            decreases count - index,
        {
            let found = match &self.lines[index] {
                Row::Action(own, _) => *own == id,
                Row::Info(_) => false,
            };
            if found {
                match self.lines.remove(index) {
                    Some(Row::Action(own, action)) => {
                        let state = if action.state == State::Running {
                            State::Finished
                        } else {
                            action.state
                        };
                        self.lines.insert(
                            index,
                            Row::Action(own, StatefulAction { action: action.action, state }),
                        );
                    },
                    Some(row) => {
                        self.lines.insert(index, row);
                    },
                    None => {},
                }
                proof {
                    let at = index as int;
                    assert(is_first(before.rows, id, at));
                    lemma_first_is_one(before.rows, id, at);
                    assert(self.lines@.len() == lines.len());
                    assert(self.lines@[at]@ == before.rows[at].stopped());
                    assert forall|other: int| 0 <= other < lines.len() && other != at implies
                        self.lines@[other] == lines[other] by {}
                    assert(self@.rows =~= before.rows.update(at, before.rows[at].stopped()));
                    assert(self@.pending =~= before.pending);
                }
                return ;
            }
            index = index + 1;
        }
        assert(!exists|first: int| is_first(before.rows, id, first));
    }

    /// Takes in a notification from the session: an action to confirm joins
    /// the queue, an action that runs becomes a row, an action that ended has
    /// its row marked, and a new session gets a row of its own.
    fn notify(&mut self, message: ActionMessage)
        ensures
            final(self)@ == old(self)@.notified(message@),
    {
        let ghost before = self@;
        match message {
            ActionMessage::ConfirmAction((id, action, ack)) => {
                self.pending_actions.push_back(Pending { id, action, ack });
                assert(self@.pending =~= before.notified(message@).pending);
                assert(self@.rows =~= before.rows);
            },
            ActionMessage::AddAction((id, action)) => {
                self.lines.push_back(
                    Row::Action(id, StatefulAction { action, state: State::Running }),
                );
                assert(self@.rows =~= before.notified(message@).rows);
                assert(self@.pending =~= before.pending);
            },
            ActionMessage::StopAction(id) => {
                self.stop(id);
            },
            ActionMessage::NewSession(session) => {
                let mut text = SESSION_LABEL.to_owned();
                text.append(session.as_str());
                self.lines.push_back(Row::Info(text));
                self.session_id = Some(session);
                assert(self@.rows =~= before.notified(message@).rows);
                assert(self@.pending =~= before.pending);
            },
        }
    }

    /// Changes the state as the event asks, and tells the session where the
    /// event decides on a waiting action. Hands back that decision.
    ///
    /// The rows may no longer fit afterwards: `reconcile` sees to that.
    pub fn handle(&mut self, event: Event) -> (verdict: Option<(u128, bool)>)
        ensures
            final(self)@ == old(self)@.handled(event@),
            verdict == match event@ {
                EventView::Key(key) => old(self)@.verdict(key),
                _ => None,
            },
    {
        match event {
            Event::Tick => {
                self.spinner_index = if self.spinner_index < SPINNER_FRAMES - 1 {
                    self.spinner_index + 1
                } else {
                    0
                };
                None
            },
            Event::Key(key) => self.press(key),
            Event::Resize(columns, rows) => {
                self.area = Area::new(0, self.area.y, columns, self.area.height).clamp(rows);
                None
            },
            Event::Message(message) => {
                self.notify(message);
                None
            },
        }
    }

    /// Fits the rows and the margin into a terminal of this size.
    ///
    /// The area is first cut down to the terminal. While the rows do not fit,
    /// the area grows towards the bottom of the terminal; then it takes the
    /// rows above it, the terminal scrolling up by one for each; then the
    /// oldest rows go into the history, each drawn a last time at the top and
    /// scrolled out. Before every scroll the margin is cleared, so that what
    /// was drawn there does not travel up into the rows.
    ///
    /// A terminal with fewer rows than the margin is refused, and nothing changes.
    pub fn reconcile(&mut self, terminal: Size) -> (result: Result<Vec<Paint>, Error>)
        ensures
            result is Err <==> terminal.height < old(self)@.margin(),
            result matches Err(error) ==> error is TerminalTooSmall && final(self)@ == old(self)@,
            result matches Ok(paints) ==> {
                &&& final(self)@ == old(self)@.fitted(terminal)
                &&& paint_views(paints@) == old(self)@.paints(terminal)
                &&& final(self)@.fits(terminal)
            },
    {
        let ghost before = self@;
        let margin = self.bottom_margin();
        let fit = match fit(self.area, terminal.height, self.lines.len(), margin) {
            Ok(fit) => fit,
            Err(error) => {
                return Err(error);
            },
        };
        let clear = terminal.height - margin;
        let mut paints: Vec<Paint> = Vec::new();
        let mut scrolled: u16 = 0;
        while scrolled < fit.reclaimed
            invariant
                scrolled <= fit.reclaimed,
                paint_views(paints@) == reclaim_paints(scrolled as nat, clear),
            decreases fit.reclaimed - scrolled,
        {
            paints.push(Paint::ClearBelow(clear));
            paints.push(Paint::ScrollUp(1));
            scrolled = scrolled + 1;
            assert(paint_views(paints@) =~= reclaim_paints(
                (scrolled - 1) as nat,
                clear,
            ) + seq![PaintView::ClearBelow(clear), PaintView::ScrollUp(1)]);
        }
        let history = Area { x: fit.area.x, y: fit.area.y, width: fit.area.width, height: 1 };
        let ghost reclaimed = paint_views(paints@);
        let mut gone: usize = 0;
        while gone < fit.evicted
            invariant
                gone <= fit.evicted <= before.rows.len(),
                row_views(self.lines@) == before.rows.skip(gone as int),
                self.pending_actions == old(self).pending_actions,
                self.session_id == old(self).session_id,
                self.should_quit == old(self).should_quit,
                self.spinner_index == old(self).spinner_index,
                paint_views(paints@) == reclaimed + evict_paints(
                    before.rows.take(gone as int),
                    clear,
                    history,
                ),
            decreases fit.evicted - gone,
        {
            let ghost shown = self.lines@;
            let ghost drawn = paint_views(paints@);
            match self.lines.pop_front() {
                Some(row) => {
                    paints.push(Paint::ClearBelow(clear));
                    paints.push(Paint::InsertBefore { area: history, line: row.line() });
                    proof {
                        lemma_rest_of_rows(shown);
                        assert(before.rows.skip(gone as int).skip(1) =~= before.rows.skip(
                            gone as int + 1,
                        ));
                        lemma_evict_one_more(before.rows, gone as int, clear, history);
                        assert(paint_views(paints@) =~= drawn + seq![
                            PaintView::ClearBelow(clear),
                            PaintView::InsertBefore { area: history, line: row@.line() },
                        ]);
                    }
                },
                None => {
                    assert(row_views(shown).len() == 0);
                },
            }
            gone = gone + 1;
        }
        self.area = fit.area;
        proof {
            assert(self@.pending == before.pending);
        }
        Ok(paints)
    }

    /// Takes one event in: changes the state as the event asks, then fits the
    /// rows into a terminal of this size.
    ///
    /// A tick only moves the busy sign; the rows are left as they are. After
    /// any other event the rows are fitted, and the update fails where the
    /// terminal has fewer rows than the margin: the event has then been
    /// handled, and a decision that it held has gone to the session.
    pub fn update(&mut self, event: Event, terminal: Size) -> (result: Result<Update, Error>)
        ensures
            result is Err <==> !(event@ is Tick) && terminal.height < old(self)@.handled(
                event@,
            ).margin(),
            result matches Err(error) ==> error is TerminalTooSmall && final(self)@ == old(
                self,
            )@.handled(event@),
            result matches Ok(update) ==> {
                &&& update.verdict == match event@ {
                    EventView::Key(key) => old(self)@.verdict(key),
                    _ => None,
                }
                &&& paint_views(update.paints@) == if event@ is Tick {
                    Seq::empty()
                } else {
                    old(self)@.handled(event@).paints(terminal)
                }
                &&& final(self)@ == if event@ is Tick {
                    old(self)@.handled(event@)
                } else {
                    old(self)@.handled(event@).fitted(terminal)
                }
                &&& !(event@ is Tick) ==> final(self)@.fits(terminal)
            },
    {
        let tick = match &event {
            Event::Tick => true,
            _ => false,
        };
        let verdict = self.handle(event);
        if tick {
            let paints: Vec<Paint> = Vec::new();
            assert(paint_views(paints@) =~= Seq::empty());
            return Ok(Update { paints, verdict });
        }
        match self.reconcile(terminal) {
            Ok(paints) => Ok(Update { paints, verdict }),
            Err(error) => Err(error),
        }
    }

    /// What the next frame shows: the rows, each with the busy sign where
    /// its action runs and the view is live, and below them the first action
    /// that waits, with the question to the operator.
    pub fn screen(&self) -> (screen: Screen)
        ensures
            screen@ == self@.screen(),
    {
        let count = self.lines.len();
        let mut rows: Vec<Line> = Vec::new();
        let mut index: usize = 0;
        while index < count
            invariant
                index <= count,
                count == self.lines@.len(),
                rows@.len() == index,
                forall|at: int| 0 <= at < index ==> (#[trigger] rows@[at])@ == self@.drawn(at),
            decreases count - index,
        {
            let row = &self.lines[index];
            assert(row_views(self.lines@)[index as int] == row@);
            let line = if self.should_quit {
                row.line()
            } else {
                row.live(self.spinner_index)
            };
            rows.push(line);
            index = index + 1;
        }
        let mut confirmation: Vec<Line> = Vec::new();
        if self.pending_actions.len() > 0 {
            let first = &self.pending_actions[0];
            let waiting = StatefulAction { action: first.action.clone(), state: State::Pending };
            confirmation.push(waiting.line());
            confirmation.push(Line::plain(QUESTION));
        }
        let list_height: u16 = if count <= u16::MAX as usize {
            count as u16
        } else {
            u16::MAX
        };
        let screen = Screen {
            area: self.area,
            list_height,
            margin: self.bottom_margin(),
            rows,
            confirmation,
        };
        proof {
            assert(row_views(self.lines@).len() == self.lines@.len());
            assert(screen@.rows =~= self@.screen().rows);
            assert(screen@.confirmation =~= self@.screen().confirmation);
        }
        screen
    }

    /// How to leave the terminal when the view ends: the cursor goes below
    /// the view, and where the view reaches the last row of the terminal, the
    /// terminal scrolls up by one.
    pub fn closing(&self, terminal: Size) -> (closing: Closing)
        ensures
            closing == self@.closing(terminal),
    {
        let bottom = self.area.bottom();
        Closing { cursor_row: bottom, scroll: self.area.height > 0 && bottom == terminal.height }
    }
}

/// What the view reacts to among what happens at the terminal: a key that
/// went down, and a change of size.
pub open spec fn picked(event: TerminalEvent) -> Option<EventView> {
    match event {
        TerminalEvent::Key { key, pressed } => if pressed {
            Some(EventView::Key(key))
        } else {
            None
        },
        TerminalEvent::Resize(columns, rows) => Some(EventView::Resize(columns, rows)),
        TerminalEvent::Other => None,
    }
}

/// Picks what the view reacts to from what happens at the terminal.
/// Everything else is dropped.
pub fn process_event(event: TerminalEvent) -> (event_for_view: Option<Event>)
    ensures
        match picked(event) {
            Some(expected) => event_for_view matches Some(taken) && taken@ == expected,
            None => event_for_view is None,
        },
{
    match event {
        TerminalEvent::Key { key, pressed } => if pressed {
            Some(Event::Key(key))
        } else {
            None
        },
        TerminalEvent::Resize(columns, rows) => Some(Event::Resize(columns, rows)),
        TerminalEvent::Other => None,
    }
}

/// Makes an event of a notification from the session.
pub fn process_message(message: ActionMessage) -> (picked: Option<Event>)
    ensures
        picked matches Some(Event::Message(taken)) && taken == message,
{
    Some(Event::Message(message))
}

/// The rows of a queue without its first are the rows of the queue, without
/// the first.
proof fn lemma_rest_of_rows(rows: Seq<Row>)
    requires
        rows.len() > 0,
    ensures
        row_views(rows)[0] == rows[0]@,
        row_views(rows.subrange(1, rows.len() as int)) == row_views(rows).skip(1),
{
    assert(row_views(rows.subrange(1, rows.len() as int)) =~= row_views(rows).skip(1));
}

/// To send one more row into the history takes the operations for the rows
/// before it, and then those for the row.
proof fn lemma_evict_one_more(rows: Seq<RowView>, count: int, clear: u16, area: Area)
    requires
        0 <= count < rows.len(),
    ensures
        evict_paints(rows.take(count + 1), clear, area) == evict_paints(
            rows.take(count),
            clear,
            area,
        ) + seq![
            PaintView::ClearBelow(clear),
            PaintView::InsertBefore { area, line: rows[count].line() },
        ],
{
    assert(rows.take(count + 1).drop_last() =~= rows.take(count));
}

/// At most one row is the first that shows an action.
pub proof fn lemma_first_is_one(rows: Seq<RowView>, id: u128, index: int)
    requires
        is_first(rows, id, index),
    ensures
        (exists|first: int| is_first(rows, id, first)),
        (choose|first: int| is_first(rows, id, first)) == index,
{
    let chosen = choose|first: int| is_first(rows, id, first);
    assert(is_first(rows, id, chosen));
    if chosen < index {
        assert(!rows[chosen].shows(id));
    }
    if index < chosen {
        assert(!rows[index].shows(id));
    }
}

/// No event makes a row show an action that waits for the operator: an
/// action that is announced as running starts as running, and an action that
/// waited becomes a row only once it is decided on. Fitting the rows into the
/// terminal makes no such row either.
pub proof fn lemma_no_row_waits(view: AppView, event: EventView, terminal: Size)
    requires
        view.no_row_waits(),
    ensures
        view.handled(event).no_row_waits(),
        view.handled(event).margin() <= terminal.height ==> view.handled(event).fitted(
            terminal,
        ).no_row_waits(),
{
    let after = view.handled(event);
    match event {
        EventView::Message(Notice::Stop(id)) => {
            if exists|index: int| is_first(view.rows, id, index) {
                let first = choose|index: int| is_first(view.rows, id, index);
                assert forall|index: int| 0 <= index < after.rows.len() implies !(
                #[trigger] after.rows[index]).waits() by {
                    assert(!view.rows[index].waits());
                }
            }
        },
        _ => {
            assert forall|index: int| 0 <= index < after.rows.len() implies !(
            #[trigger] after.rows[index]).waits() by {
                if index < view.rows.len() {
                    assert(!view.rows[index].waits());
                }
            }
        },
    }
    if after.margin() <= terminal.height {
        let area = after.area.clamped(terminal.height);
        lemma_plan(
            area.y as int,
            area.height as int,
            terminal.height as int,
            after.rows.len() as int,
            after.margin() as int,
        );
        let gone = after.evicted(terminal);
        let fitted = after.fitted(terminal);
        assert forall|index: int| 0 <= index < fitted.rows.len() implies !(
        #[trigger] fitted.rows[index]).waits() by {
            assert(fitted.rows[index] == after.rows[index + gone]);
        }
    }
}

/// An action that is announced as running becomes the last row, and runs.
pub proof fn lemma_added_runs(view: AppView, id: u128, action: ActionView)
    ensures
        view.notified(Notice::Add(id, action)).rows == view.rows.push(
            RowView::Action(id, StatefulActionView { action, state: State::Running }),
        ),
        view.notified(Notice::Add(id, action)).pending == view.pending,
{
}

/// The operator decides on the first action that waits, and on no other:
/// with `y` it becomes the last row and runs, and the session is told yes;
/// with `n` it becomes the last row as canceled, and the session is told no.
/// The rows that were there stay as they are.
pub proof fn lemma_decision(view: AppView, key: KeyEvent)
    requires
        view.pending.len() > 0,
        key.code == KeyCode::Char('y') || key.code == KeyCode::Char('n'),
    ensures
        ({
            let yes = key.code == KeyCode::Char('y');
            let after = view.keyed(key);
            &&& view.verdict(key) == Some((view.pending[0].0, yes))
            &&& after.pending == view.pending.drop_first()
            &&& after.rows.drop_last() == view.rows
            &&& after.rows.last() == RowView::Action(
                view.pending[0].0,
                StatefulActionView {
                    action: view.pending[0].1,
                    state: if yes {
                        State::Running
                    } else {
                        State::Canceled
                    },
                },
            )
        }),
{
    let after = view.keyed(key);
    assert(after.rows.drop_last() =~= view.rows);
}

/// The end of an action that no row shows changes nothing: so it is where
/// the row has left the view for the history, and where there never was one.
pub proof fn lemma_stop_unseen(view: AppView, id: u128)
    requires
        forall|index: int|
            0 <= index < view.rows.len() ==> !(#[trigger] view.rows[index]).shows(id),
    ensures
        view.notified(Notice::Stop(id)) == view,
{
    assert(!exists|index: int| is_first(view.rows, id, index));
}

/// To be told twice of the end of an action is the same as to be told once.
pub proof fn lemma_stop_twice(view: AppView, id: u128)
    ensures
        view.notified(Notice::Stop(id)).notified(Notice::Stop(id)) == view.notified(
            Notice::Stop(id),
        ),
{
    if exists|index: int| is_first(view.rows, id, index) {
        let first = choose|index: int| is_first(view.rows, id, index);
        let once = stop_row(view.rows, id);
        assert(once == view.rows.update(first, view.rows[first].stopped()));
        assert forall|earlier: int| 0 <= earlier < first implies !(#[trigger] once[earlier]).shows(
            id,
        ) by {
            assert(!view.rows[earlier].shows(id));
        }
        assert(is_first(once, id, first));
        lemma_first_is_one(once, id, first);
        assert(once[first].stopped() == once[first]);
        assert(stop_row(once, id) =~= once);
    } else {
        assert(stop_row(view.rows, id) == view.rows);
    }
}

/// A row whose action is finished or canceled stays as it is, whatever
/// event comes in.
pub proof fn lemma_terminal_stays(view: AppView, event: EventView, index: int)
    requires
        0 <= index < view.rows.len(),
        view.rows[index] matches RowView::Action(_, action) && action.state.is_terminal(),
    ensures
        index < view.handled(event).rows.len(),
        view.handled(event).rows[index] == view.rows[index],
{
    match event {
        EventView::Message(Notice::Stop(id)) => {
            if exists|first: int| is_first(view.rows, id, first) {
                let first = choose|first: int| is_first(view.rows, id, first);
                assert(view.rows[index].stopped() == view.rows[index]);
            }
        },
        _ => {},
    }
}

/// Whatever event comes in, a row stays where it is and shows what it
/// showed; the state of its action stays or passes into one that may follow it.
pub proof fn lemma_rows_move_forward(view: AppView, event: EventView, index: int)
    requires
        0 <= index < view.rows.len(),
    ensures
        index < view.handled(event).rows.len(),
        match (view.rows[index], view.handled(event).rows[index]) {
            (RowView::Action(id, before), RowView::Action(same, after)) => {
                &&& same == id
                &&& after.action == before.action
                &&& after.state == before.state || before.state.may_become(after.state)
            },
            (RowView::Info(before), RowView::Info(after)) => after == before,
            _ => false,
        },
{
    match event {
        EventView::Message(Notice::Stop(id)) => {
            if exists|first: int| is_first(view.rows, id, first) {
                let first = choose|first: int| is_first(view.rows, id, first);
                assert(view.handled(event).rows == view.rows.update(
                    first,
                    view.rows[first].stopped(),
                ));
            }
        },
        _ => {},
    }
}

/// After an update that succeeds, the view lies within the terminal, and
/// its rows and the margin have room in it; the rows that are left are the
/// newest, in the order in which they came, and those that left are the
/// oldest.
pub proof fn lemma_fitted(view: AppView, terminal: Size)
    requires
        view.margin() <= terminal.height,
    ensures
        view.fitted(terminal).fits(terminal),
        view.fitted(terminal).area.height <= terminal.height,
        0 <= view.evicted(terminal) <= view.rows.len(),
        view.rows == view.rows.take(view.evicted(terminal)) + view.fitted(terminal).rows,
        view.fits(terminal) ==> view.fitted(terminal) == view,
        view.fitted(terminal).fitted(terminal) == view.fitted(terminal),
{
    let area = view.area.clamped(terminal.height);
    lemma_plan(
        area.y as int,
        area.height as int,
        terminal.height as int,
        view.rows.len() as int,
        view.margin() as int,
    );
    let gone = view.evicted(terminal);
    assert(view.rows =~= view.rows.take(gone) + view.rows.skip(gone));
    if view.fits(terminal) {
        assert(view.rows.skip(0) =~= view.rows);
    }
    let once = view.fitted(terminal);
    let again = once.area.clamped(terminal.height);
    lemma_plan(
        again.y as int,
        again.height as int,
        terminal.height as int,
        once.rows.len() as int,
        once.margin() as int,
    );
    assert(once.rows.skip(0) =~= once.rows);
}

} // verus!

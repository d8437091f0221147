//! A session with the relay: the handshake, what to do with each frame, and
//! the exchange that takes one request from its arrival to its answer.

use crate::action::{
    result_view, Action, ActionMessage, ActionResponse, ActionResponseView, ActionView, Notice,
};
use crate::channel::{ack_channel, fresh_id, post};
use crate::error::{Error, ErrorView};
use crate::wire::{
    decode_request, decode_session_id, encode_response, request_of, response_text, session_id_of,
    Request, RequestView, Response, ResponseView,
};
use vstd::prelude::*;

verus! {

/// The seconds between two pings that keep the connection alive.
pub const KEEPALIVE_INTERVAL: u64 = 20;

/// How many requests are handled at a time. Further requests wait, in the
/// order in which their frames were read.
pub const MAX_CONCURRENCY: usize = 100;

/// What the relay is told where the operator did not let an action run.
pub const REFUSAL: &'static str = "the operator refused to run the action";

/// A frame of the connection, as far as the session tells frames apart.
#[derive(Debug, PartialEq, Eq)]
pub enum Frame {
    Text(String),
    Binary(Vec<u8>),
    Ping(Vec<u8>),
    Pong(Vec<u8>),
    Close,
    /// A frame as it is on the wire, which the transport hands out only on demand.
    Raw,
}

/// A frame as a value of mathematics.
pub enum FrameView {
    Text(Seq<char>),
    Binary(Seq<u8>),
    Ping(Seq<u8>),
    Pong(Seq<u8>),
    Close,
    Raw,
}

impl View for Frame {
    type V = FrameView;

    open spec fn view(&self) -> FrameView {
        match self {
            Frame::Text(text) => FrameView::Text(text@),
            Frame::Binary(data) => FrameView::Binary(data@),
            Frame::Ping(data) => FrameView::Ping(data@),
            Frame::Pong(data) => FrameView::Pong(data@),
            Frame::Close => FrameView::Close,
            Frame::Raw => FrameView::Raw,
        }
    }
}

/// The bytes that a keepalive ping carries: the word `keepalive`.
pub open spec fn keepalive_payload() -> Seq<u8> {
    seq![0x6b, 0x65, 0x65, 0x70, 0x61, 0x6c, 0x69, 0x76, 0x65]
}

/// The ping that keeps the connection alive.
pub fn keepalive() -> (frame: Frame)
    ensures
        frame@ == FrameView::Ping(keepalive_payload()),
{
    let payload: Vec<u8> = vec![0x6b, 0x65, 0x65, 0x70, 0x61, 0x6c, 0x69, 0x76, 0x65];
    assert(payload@ =~= keepalive_payload());
    Frame::Ping(payload)
}

/// A session that the relay has opened.
#[derive(Debug, PartialEq, Eq)]
pub struct Session {
    pub session_id: String,
}

/// What the first thing that the connection yields makes of it: the
/// identifier of the session where it is a text frame that spells one, and
/// otherwise the reason why there is no session. The connection may also
/// yield a failure of the transport, and it may end before it yields anything.
pub open spec fn handshake(first: Option<Result<FrameView, Seq<char>>>) -> Result<
    Seq<char>,
    ErrorView,
> {
    match first {
        Some(Ok(FrameView::Text(text))) => match session_id_of(text) {
            Some(session_id) => Ok(session_id),
            None => Err(ErrorView::SessionIdParseFailure),
        },
        Some(Ok(_)) => Err(ErrorView::NoSessionId),
        Some(Err(failure)) => Err(ErrorView::CannotConnect(failure)),
        None => Err(ErrorView::NoSessionId),
    }
}

/// The first thing that the connection yields, as a value of mathematics.
pub open spec fn first_view(first: Option<Result<Frame, String>>) -> Option<
    Result<FrameView, Seq<char>>,
> {
    match first {
        Some(Ok(frame)) => Some(Ok(frame@)),
        Some(Err(failure)) => Some(Err(failure@)),
        None => None,
    }
}

impl Session {
    /// Opens the session from the first thing that the connection yields, or
    /// from nothing where the connection ended before it yielded anything.
    pub fn new(first: Option<Result<Frame, String>>) -> (session: Result<Session, Error>)
        ensures
            match handshake(first_view(first)) {
                Ok(session_id) => session matches Ok(opened) && opened.session_id@ == session_id,
                Err(error) => session matches Err(failure) && failure@ == error,
            },
    {
        match first {
            Some(Ok(Frame::Text(text))) => match decode_session_id(text.as_str()) {
                Some(session_id) => Ok(Session { session_id }),
                None => Err(Error::SessionIdParseFailure),
            },
            Some(Ok(_)) => Err(Error::NoSessionId),
            Some(Err(failure)) => Err(Error::CannotConnect(failure)),
            None => Err(Error::NoSessionId),
        }
    }

    /// The notification that tells the view of the session.
    pub fn notification(&self) -> (message: ActionMessage)
        ensures
            message@ == Notice::Session(self.session_id@),
    {
        ActionMessage::NewSession(self.session_id.clone())
    }
}

/// What a frame asks of the session.
#[derive(Debug, PartialEq, Eq)]
pub enum Reaction {
    /// Take the request through an exchange and send its answer.
    Serve(Request),
    /// Send this frame.
    Reply(Frame),
    /// Nothing.
    Ignore,
}

/// A reaction as a value of mathematics.
pub enum ReactionView {
    Serve(RequestView),
    Reply(FrameView),
    Ignore,
}

impl View for Reaction {
    type V = ReactionView;

    open spec fn view(&self) -> ReactionView {
        match self {
            Reaction::Serve(request) => ReactionView::Serve(request@),
            Reaction::Reply(frame) => ReactionView::Reply(frame@),
            Reaction::Ignore => ReactionView::Ignore,
        }
    }
}

/// What a frame asks of the session: a text has to spell a request, a ping
/// is answered with a pong of the same bytes, a pong and a close ask nothing,
/// and any other frame is refused.
pub open spec fn reaction(message: FrameView) -> Result<ReactionView, ErrorView> {
    match message {
        FrameView::Text(text) => match request_of(text) {
            Some(request) => Ok(ReactionView::Serve(request)),
            None => Err(ErrorView::SessionIdParseFailure),
        },
        FrameView::Ping(data) => Ok(ReactionView::Reply(FrameView::Pong(data))),
        FrameView::Pong(_) => Ok(ReactionView::Ignore),
        FrameView::Close => Ok(ReactionView::Ignore),
        _ => Err(ErrorView::UnsupportedMessage),
    }
}

/// Decides what to do with a frame of the relay. A failure concerns this
/// frame alone: the session goes on.
pub fn handle_message(message: Frame) -> (result: Result<Reaction, Error>)
    ensures
        match reaction(message@) {
            Ok(expected) => result matches Ok(found) && found@ == expected,
            Err(error) => result matches Err(failure) && failure@ == error,
        },
{
    match message {
        Frame::Text(payload) => match decode_request(payload.as_str()) {
            Some(request) => Ok(Reaction::Serve(request)),
            None => Err(Error::SessionIdParseFailure),
        },
        Frame::Ping(payload) => Ok(Reaction::Reply(Frame::Pong(payload))),
        Frame::Pong(_) => Ok(Reaction::Ignore),
        Frame::Close => Ok(Reaction::Ignore),
        _ => Err(Error::UnsupportedMessage),
    }
}

/// The frame that carries a response to the relay.
pub fn response_frame(response: &Response) -> (frame: Frame)
    ensures
        frame@ == FrameView::Text(response_text(response@)),
{
    Frame::Text(encode_response(response))
}

/// The answer to a request whose action ran: what the action answered, or
/// the description of its failure, marked as an error.
pub open spec fn reply(
    request_id: Seq<char>,
    result: Result<ActionResponseView, ErrorView>,
) -> ResponseView {
    match result {
        Ok(response) => ResponseView { data: response, error: false, request_id },
        Err(error) => ResponseView {
            data: ActionResponseView::Error(error.text()),
            error: true,
            request_id,
        },
    }
}

/// The answer to a request whose action was not let run.
pub open spec fn refusal(request_id: Seq<char>) -> ResponseView {
    ResponseView { data: ActionResponseView::Error(REFUSAL@), error: true, request_id }
}

/// Where an exchange stands.
#[derive(Debug, Clone, Copy, PartialEq, Eq, Structural)]
pub enum Stage {
    /// The request has come in and the view knows nothing of it yet.
    Received,
    /// The view has the action under this identifier, and the operator has
    /// not decided on it.
    Waiting(u128),
    /// The action runs, or is about to, under this identifier.
    Running(u128),
    /// The answer is made.
    Settled,
}

/// An exchange as a value of mathematics.
pub struct ExchangeView {
    pub request_id: Seq<char>,
    pub action: ActionView,
    /// Whether actions run without the operator being asked.
    pub no_confirm: bool,
    pub stage: Stage,
    /// The identifier under which the action was let run, if it was.
    pub admitted: Option<u128>,
    /// The answer, once it is made.
    pub response: Option<ResponseView>,
    /// What the exchange has handed to the mailbox of the view, in order.
    pub notices: Seq<Notice>,
}

/// What can happen to an exchange.
pub enum Step {
    /// The action was announced under this identifier, and the mailbox took
    /// the announcement or did not.
    Announced(u128, bool),
    /// The operator decided, or the channel for the decision closed without one.
    Answered(Option<bool>),
    /// The action came to its end with this result.
    Finished(Result<ActionResponseView, ErrorView>),
}

impl ExchangeView {
    /// An exchange as it begins.
    pub open spec fn fresh(request: RequestView, no_confirm: bool) -> ExchangeView {
        ExchangeView {
            request_id: request.request_id,
            action: request.data,
            no_confirm,
            stage: Stage::Received,
            admitted: None,
            response: None,
            notices: Seq::empty(),
        }
    }

    /// How the action is announced to the view under `id`: as running where
    /// the operator is not asked, as waiting where they are.
    pub open spec fn announcement(self, id: u128) -> Notice {
        if self.no_confirm {
            Notice::Add(id, self.action)
        } else {
            Notice::Confirm(id, self.action)
        }
    }

    /// The exchange once it has ended without the action having run.
    pub open spec fn refused(self) -> ExchangeView {
        ExchangeView {
            stage: Stage::Settled,
            response: Some(refusal(self.request_id)),
            ..self
        }
    }

    /// The exchange once the action may run under `id`.
    pub open spec fn allowed(self, id: u128) -> ExchangeView {
        ExchangeView { stage: Stage::Running(id), admitted: Some(id), ..self }
    }

    /// The exchange after its action was announced under `id`. An
    /// announcement that the mailbox did not take ends the exchange with a
    /// refusal. One that it took lets the action run where the operator is
    /// not asked, and wait for the decision where they are.
    pub open spec fn announced(self, id: u128, accepted: bool) -> ExchangeView {
        if self.stage is Received {
            let told = ExchangeView { notices: self.notices.push(self.announcement(id)), ..self };
            if !accepted {
                told.refused()
            } else if self.no_confirm {
                told.allowed(id)
            } else {
                ExchangeView { stage: Stage::Waiting(id), ..told }
            }
        } else {
            self
        }
    }

    /// The exchange after the decision of the operator: only a yes lets the
    /// action run; a no, and a channel that closed without a decision, end
    /// the exchange with a refusal.
    pub open spec fn answered(self, answer: Option<bool>) -> ExchangeView {
        match self.stage {
            Stage::Waiting(id) => if answer == Some(true) {
                self.allowed(id)
            } else {
                self.refused()
            },
            _ => self,
        }
    }

    /// The exchange after its action came to its end: the view is told so,
    /// and the answer is made from the result.
    pub open spec fn finished(
        self,
        result: Result<ActionResponseView, ErrorView>,
    ) -> ExchangeView {
        match self.stage {
            Stage::Running(id) => ExchangeView {
                stage: Stage::Settled,
                response: Some(reply(self.request_id, result)),
                notices: self.notices.push(Notice::Stop(id)),
                ..self
            },
            _ => self,
        }
    }

    /// The exchange after a step.
    pub open spec fn step(self, step: Step) -> ExchangeView {
        match step {
            Step::Announced(id, accepted) => self.announced(id, accepted),
            Step::Answered(answer) => self.answered(answer),
            Step::Finished(result) => self.finished(result),
        }
    }

    /// The exchange after a sequence of steps.
    pub open spec fn run(self, steps: Seq<Step>) -> ExchangeView
        decreases steps.len(),
    {
        if steps.len() == 0 {
            self
        } else {
            self.run(steps.drop_last()).step(steps.last())
        }
    }

    /// What holds of an exchange at every stage: which notifications have
    /// gone out, whether the action was let run, and whether there is an answer.
    pub open spec fn lawful(self) -> bool {
        match self.stage {
            Stage::Received => {
                &&& self.notices == Seq::<Notice>::empty()
                &&& self.admitted is None
                &&& self.response is None
            },
            Stage::Waiting(id) => {
                &&& !self.no_confirm
                &&& self.notices == seq![self.announcement(id)]
                &&& self.admitted is None
                &&& self.response is None
            },
            Stage::Running(id) => {
                &&& self.notices == seq![self.announcement(id)]
                &&& self.admitted == Some(id)
                &&& self.response is None
            },
            Stage::Settled => match self.admitted {
                Some(id) => {
                    &&& self.notices == seq![self.announcement(id), Notice::Stop(id)]
                    &&& self.response is Some
                    &&& self.response->0.request_id == self.request_id
                },
                None => {
                    &&& exists|id: u128| self.notices == seq![self.announcement(id)]
                    &&& self.response == Some(refusal(self.request_id))
                },
            },
        }
    }
}

/// Whether a notification announces the action `id`.
pub open spec fn announces(notice: Notice, id: u128) -> bool {
    match notice {
        Notice::Confirm(own, _) => own == id,
        Notice::Add(own, _) => own == id,
        _ => false,
    }
}

/// One request on its way from its arrival to its answer.
pub struct Exchange {
    request_id: String,
    action: Action,
    no_confirm: bool,
    stage: Stage,
    admitted: Option<u128>,
    response: Option<Response>,
    notices: Ghost<Seq<Notice>>,
}

impl View for Exchange {
    type V = ExchangeView;

    closed spec fn view(&self) -> ExchangeView {
        ExchangeView {
            request_id: self.request_id@,
            action: self.action@,
            no_confirm: self.no_confirm,
            stage: self.stage,
            admitted: self.admitted,
            response: match self.response {
                Some(response) => Some(response@),
                None => None,
            },
            notices: self.notices@,
        }
    }
}

impl Exchange {
    /// The exchange for a request that has just come in. With `no_confirm`
    /// its action runs without the operator being asked.
    pub fn new(request: Request, no_confirm: bool) -> (exchange: Exchange)
        ensures
            exchange@ == ExchangeView::fresh(request@, no_confirm),
            exchange@.lawful(),
    {
        Exchange {
            request_id: request.request_id,
            action: request.data,
            no_confirm,
            stage: Stage::Received,
            admitted: None,
            response: None,
            notices: Ghost(Seq::empty()),
        }
    }

    /// The identifier under which the action was let run, if it was.
    pub fn admitted(&self) -> (id: Option<u128>)
        ensures
            id == self@.admitted,
    {
        self.admitted
    }

    /// Where the exchange stands.
    pub fn stage(&self) -> (stage: Stage)
        ensures
            stage == self@.stage,
    {
        self.stage
    }

    /// The answer that is made where the action is not let run.
    fn refuse(&mut self)
        ensures
            final(self)@ == old(self)@.refused(),
    {
        self.stage = Stage::Settled;
        self.response = Some(
            Response {
                data: ActionResponse::Error(REFUSAL.to_owned()),
                error: true,
                request_id: self.request_id.clone(),
            },
        );
    }

    /// Takes in what became of the announcement of the action under `id`:
    /// whether the mailbox of the view took it.
    pub fn announced(&mut self, id: u128, accepted: bool)
        ensures
            final(self)@ == old(self)@.announced(id, accepted),
            old(self)@.lawful() ==> final(self)@.lawful(),
    {
        match self.stage {
            Stage::Received => {
                self.notices = Ghost(self.notices@.push(self@.announcement(id)));
                if !accepted {
                    self.refuse();
                } else if self.no_confirm {
                    self.stage = Stage::Running(id);
                    self.admitted = Some(id);
                } else {
                    self.stage = Stage::Waiting(id);
                }
            },
            _ => {},
        }
        proof {
            if old(self)@.lawful() {
                lemma_step_lawful(old(self)@, Step::Announced(id, accepted));
            }
        }
    }

    /// Announces the action to the view under a new identifier: as running
    /// where the operator is not asked, and otherwise as waiting, with a
    /// channel for the decision. Hands back the end of that channel on which
    /// the decision arrives, where one is to be waited for.
    ///
    /// Where the mailbox does not take the announcement, the exchange is
    /// settled with a refusal, and the failure is handed back to be reported.
    /// An exchange that is past this stage is left as it is.
    pub fn begin(&mut self, mailbox: &mut futures_channel::mpsc::Sender<ActionMessage>) -> (answer:
        Result<Option<futures_channel::oneshot::Receiver<bool>>, Error>)
        ensures
            ({
                let accepted = answer is Ok;
                exists|id: u128| final(self)@ == #[trigger] old(self)@.announced(id, accepted)
            }),
            answer matches Ok(Some(_)) <==> old(self)@.stage is Received && final(self)@.stage
                is Waiting,
            answer matches Err(failure) ==> failure is ActionSendError,
            old(self)@.lawful() ==> final(self)@.lawful(),
    {
        match self.stage {
            Stage::Received => {
                let id = fresh_id();
                if self.no_confirm {
                    let message = ActionMessage::AddAction((id, self.action.clone()));
                    assert(message@ == self@.announcement(id));
                    let accepted = post(mailbox, message);
                    self.announced(id, accepted);
                    if accepted {
                        Ok(None)
                    } else {
                        Err(Error::ActionSendError)
                    }
                } else {
                    let (ack, answer) = ack_channel();
                    let message = ActionMessage::ConfirmAction((id, self.action.clone(), ack));
                    assert(message@ == self@.announcement(id));
                    let accepted = post(mailbox, message);
                    self.announced(id, accepted);
                    if accepted {
                        Ok(Some(answer))
                    } else {
                        Err(Error::ActionSendError)
                    }
                }
            },
            _ => {
                assert(self@ == self@.announced(0, true));
                Ok(None)
            },
        }
    }

    /// Takes in the decision of the operator, or that the channel for it
    /// closed without one.
    pub fn acknowledge(&mut self, answer: Option<bool>)
        ensures
            final(self)@ == old(self)@.answered(answer),
            old(self)@.lawful() ==> final(self)@.lawful(),
    {
        match self.stage {
            Stage::Waiting(id) => {
                match answer {
                    Some(true) => {
                        self.stage = Stage::Running(id);
                        self.admitted = Some(id);
                    },
                    _ => {
                        self.refuse();
                    },
                }
            },
            _ => {},
        }
        proof {
            if old(self)@.lawful() {
                lemma_step_lawful(old(self)@, Step::Answered(answer));
            }
        }
    }

    /// The action to run now, if the exchange is at that stage.
    pub fn runnable(&self) -> (action: Option<&Action>)
        ensures
            action is Some <==> self@.stage is Running,
            action matches Some(found) ==> found@ == self@.action,
    {
        match self.stage {
            Stage::Running(_) => Some(&self.action),
            _ => None,
        }
    }

    /// Takes in the result of the action: tells the view that the action has
    /// come to its end, and makes the answer. Whether the mailbox takes the
    /// notification makes no difference to the answer; where it does not,
    /// the failure is handed back to be reported.
    ///
    /// An exchange whose action does not run is left as it is.
    pub fn finish(
        &mut self,
        result: Result<ActionResponse, Error>,
        mailbox: &mut futures_channel::mpsc::Sender<ActionMessage>,
    ) -> (told: Result<(), Error>)
        ensures
            final(self)@ == old(self)@.finished(result_view(result)),
            told matches Err(failure) ==> failure is ActionSendError && old(self)@.stage is Running,
            old(self)@.lawful() ==> final(self)@.lawful(),
    {
        let mut told: Result<(), Error> = Ok(());
        match self.stage {
            Stage::Running(id) => {
                let message = ActionMessage::StopAction(id);
                assert(message@ == Notice::Stop(id));
                if !post(mailbox, message) {
                    told = Err(Error::ActionSendError);
                }
                self.notices = Ghost(self.notices@.push(Notice::Stop(id)));
                let response = match result {
                    Ok(data) => Response {
                        data,
                        error: false,
                        request_id: self.request_id.clone(),
                    },
                    Err(error) => Response {
                        data: ActionResponse::Error(error.message()),
                        error: true,
                        request_id: self.request_id.clone(),
                    },
                };
                self.stage = Stage::Settled;
                self.response = Some(response);
            },
            _ => {},
        }
        proof {
            if old(self)@.lawful() {
                lemma_step_lawful(old(self)@, Step::Finished(result_view(result)));
            }
        }
        told
    }

    /// The answer, once the exchange is settled.
    pub fn into_response(self) -> (response: Option<Response>)
        ensures
            response is Some <==> self@.response is Some,
            response matches Some(made) ==> Some(made@) == self@.response,
            self@.lawful() ==> (response is Some <==> self@.stage is Settled),
    {
        self.response
    }
}

/// No step takes an exchange out of what holds of it at every stage.
pub proof fn lemma_step_lawful(exchange: ExchangeView, step: Step)
    requires
        exchange.lawful(),
    ensures
        exchange.step(step).lawful(),
{
    let next = exchange.step(step);
    match step {
        Step::Announced(id, accepted) => {
            if exchange.stage is Received {
                assert(next.notices =~= seq![exchange.announcement(id)]);
                assert(next.announcement(id) == exchange.announcement(id));
            }
        },
        Step::Answered(answer) => {
            if let Stage::Waiting(id) = exchange.stage {
                assert(next.announcement(id) == exchange.announcement(id));
            }
        },
        Step::Finished(result) => {
            if let Stage::Running(id) = exchange.stage {
                assert(next.notices =~= seq![exchange.announcement(id), Notice::Stop(id)]);
                assert(next.announcement(id) == exchange.announcement(id));
            }
        },
    }
}

/// Whatever happens to an exchange, in whatever order, what holds of an
/// exchange at every stage holds of it.
pub proof fn lemma_run_lawful(exchange: ExchangeView, steps: Seq<Step>)
    requires
        exchange.lawful(),
    ensures
        exchange.run(steps).lawful(),
    decreases steps.len(),
{
    if steps.len() > 0 {
        lemma_run_lawful(exchange, steps.drop_last());
        lemma_step_lawful(exchange.run(steps.drop_last()), steps.last());
    }
}

/// An exchange tells the view at most once that the action `id` has come to
/// its end, and only after it has announced that action exactly once. It
/// tells so of no action but the one it let run, and once it is settled it
/// has told so of that one.
pub proof fn lemma_one_stop(exchange: ExchangeView, id: u128)
    requires
        exchange.lawful(),
    ensures
        forall|first: int, second: int|
            0 <= first < exchange.notices.len() && 0 <= second < exchange.notices.len()
                && exchange.notices[first] == Notice::Stop(id) && exchange.notices[second]
                == Notice::Stop(id) ==> first == second,
        forall|stop: int|
            0 <= stop < exchange.notices.len() && exchange.notices[stop] == Notice::Stop(id) ==> {
                &&& exchange.admitted == Some(id)
                &&& exists|told: int|
                    {
                        &&& 0 <= told < stop
                        &&& announces(#[trigger] exchange.notices[told], id)
                        &&& forall|other: int|
                            0 <= other < exchange.notices.len() && announces(
                                #[trigger] exchange.notices[other],
                                id,
                            ) ==> other == told
                    }
            },
        exchange.stage is Settled && exchange.admitted == Some(id) ==> exists|stop: int|
            0 <= stop < exchange.notices.len() && #[trigger] exchange.notices[stop] == Notice::Stop(
                id,
            ),
{
    match exchange.stage {
        Stage::Settled => match exchange.admitted {
            Some(own) => {
                assert(exchange.notices[0] == exchange.announcement(own));
                assert(exchange.notices[1] == Notice::Stop(own));
                if own == id {
                    assert(announces(exchange.notices[0], id));
                }
            },
            None => {
                let own = choose|own: u128| exchange.notices == seq![exchange.announcement(own)];
                assert(exchange.notices[0] == exchange.announcement(own));
            },
        },
        Stage::Received => {},
        Stage::Waiting(own) => {
            assert(exchange.notices[0] == exchange.announcement(own));
        },
        Stage::Running(own) => {
            assert(exchange.notices[0] == exchange.announcement(own));
        },
    }
}

/// The answer of an exchange carries the identifier of its request, as the
/// relay chose it; and only a settled exchange has an answer.
pub proof fn lemma_answer_echoes(request: RequestView, no_confirm: bool, steps: Seq<Step>)
    ensures
        ({
            let after = ExchangeView::fresh(request, no_confirm).run(steps);
            &&& after.response is Some <==> after.stage is Settled
            &&& after.response matches Some(response) ==> response.request_id
                == request.request_id
        }),
{
    let start = ExchangeView::fresh(request, no_confirm);
    lemma_run_lawful(start, steps);
    lemma_run_keeps_request(start, steps);
}

/// Nothing happens to an exchange that is settled: its answer stands, and
/// its action does not run.
pub proof fn lemma_settled_stays(exchange: ExchangeView, steps: Seq<Step>)
    requires
        exchange.stage is Settled,
    ensures
        exchange.run(steps) == exchange,
    decreases steps.len(),
{
    if steps.len() > 0 {
        lemma_settled_stays(exchange, steps.drop_last());
    }
}

/// An action that the operator refuses does not run: the exchange is
/// settled at once with the refusal, marked as an error, the view is told of
/// no end, and nothing that happens afterwards changes that. The same holds
/// where the channel for the decision closes without one.
pub proof fn lemma_refused_never_runs(
    exchange: ExchangeView,
    answer: Option<bool>,
    steps: Seq<Step>,
)
    requires
        exchange.lawful(),
        exchange.stage is Waiting,
        answer != Some(true),
    ensures
        ({
            let after = exchange.answered(answer).run(steps);
            &&& after.stage is Settled
            &&& after.admitted is None
            &&& after.response == Some(refusal(exchange.request_id))
            &&& after.response->0.error
            &&& after.response->0.data == ActionResponseView::Error(REFUSAL@)
            &&& after.notices == exchange.notices
        }),
{
    lemma_settled_stays(exchange.answered(answer), steps);
}

/// An action that the operator confirms runs under the identifier it
/// waited under, and under no other.
pub proof fn lemma_confirmed_runs(exchange: ExchangeView)
    requires
        exchange.lawful(),
        exchange.stage is Waiting,
    ensures
        exchange.answered(Some(true)).stage == Stage::Running(exchange.stage->Waiting_0),
        exchange.answered(Some(true)).admitted == Some(exchange.stage->Waiting_0),
{
}

/// Where the operator is not asked, no action ever waits: whatever happens
/// to the exchange, it never stands at the stage of waiting, and it never
/// announces its action as one to confirm.
pub proof fn lemma_no_confirm_never_waits(request: RequestView, steps: Seq<Step>)
    ensures
        ({
            let after = ExchangeView::fresh(request, true).run(steps);
            &&& !(after.stage is Waiting)
            &&& forall|at: int|
                0 <= at < after.notices.len() ==> !(#[trigger] after.notices[at] is Confirm)
        }),
{
    let start = ExchangeView::fresh(request, true);
    lemma_run_lawful(start, steps);
    lemma_run_keeps_request(start, steps);
    let after = start.run(steps);
    match after.stage {
        Stage::Settled => match after.admitted {
            Some(own) => {
                assert(after.notices[0] == after.announcement(own));
                assert(after.notices[1] == Notice::Stop(own));
            },
            None => {
                let own = choose|own: u128| after.notices == seq![after.announcement(own)];
                assert(after.notices[0] == after.announcement(own));
            },
        },
        Stage::Received => {},
        Stage::Waiting(own) => {},
        Stage::Running(own) => {
            assert(after.notices[0] == after.announcement(own));
        },
    }
}

/// Nothing that happens to an exchange changes its request or whether the
/// operator is asked.
pub proof fn lemma_run_keeps_request(exchange: ExchangeView, steps: Seq<Step>)
    ensures
        exchange.run(steps).request_id == exchange.request_id,
        exchange.run(steps).action == exchange.action,
        exchange.run(steps).no_confirm == exchange.no_confirm,
    decreases steps.len(),
{
    if steps.len() > 0 {
        lemma_run_keeps_request(exchange, steps.drop_last());
    }
}

} // verus!

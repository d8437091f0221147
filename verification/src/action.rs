//! Actions on the system (running a command, reading and writing a file),
//! what they ask of the environment and what they answer.

use crate::error::{Error, ErrorView};
use vstd::prelude::*;
use vstd::utf8::{decode_utf8, encode_utf8, valid_utf8};

verus! {

/// The command interpreter.
pub const SHELL: &'static str = "/bin/bash";

/// The argument that makes the interpreter take the next one as its script.
pub const SHELL_FLAG: &'static str = "-c";

/// One unit of requested work.
#[derive(Debug, PartialEq, Eq)]
pub enum Action {
    Read { path: String },
    Command { command: String },
    Write { path: String, content: String },
}

/// An action as a value of mathematics.
pub enum ActionView {
    Read { path: Seq<char> },
    Command { command: Seq<char> },
    Write { path: Seq<char>, content: Seq<char> },
}

impl View for Action {
    type V = ActionView;

    open spec fn view(&self) -> ActionView {
        match self {
            Action::Read { path } => ActionView::Read { path: path@ },
            Action::Command { command } => ActionView::Command { command: command@ },
            Action::Write { path, content } => ActionView::Write {
                path: path@,
                content: content@,
            },
        }
    }
}

impl Clone for Action {
    fn clone(&self) -> (copy: Action)
        ensures
            copy == *self,
    {
        match self {
            Action::Read { path } => Action::Read { path: path.clone() },
            Action::Command { command } => Action::Command { command: command.clone() },
            Action::Write { path, content } => Action::Write {
                path: path.clone(),
                content: content.clone(),
            },
        }
    }
}

/// The answer to an action.
#[derive(Debug, PartialEq, Eq)]
pub enum ActionResponse {
    Read { content: String },
    Command { exit_code: Option<i32>, stdout: String, stderr: String },
    Write { bytes_written: usize },
    Error(String),
}

/// An answer as a value of mathematics.
pub enum ActionResponseView {
    Read { content: Seq<char> },
    Command { exit_code: Option<i32>, stdout: Seq<char>, stderr: Seq<char> },
    Write { bytes_written: usize },
    Error(Seq<char>),
}

impl View for ActionResponse {
    type V = ActionResponseView;

    open spec fn view(&self) -> ActionResponseView {
        match self {
            ActionResponse::Read { content } => ActionResponseView::Read { content: content@ },
            ActionResponse::Command { exit_code, stdout, stderr } => ActionResponseView::Command {
                exit_code: *exit_code,
                stdout: stdout@,
                stderr: stderr@,
            },
            ActionResponse::Write { bytes_written } => ActionResponseView::Write {
                bytes_written: *bytes_written,
            },
            ActionResponse::Error(message) => ActionResponseView::Error(message@),
        }
    }
}

/// Where an action stands.
#[derive(Debug, Clone, Copy, PartialEq, Eq, Structural)]
pub enum State {
    Running,
    Finished,
    Pending,
    Canceled,
}

impl State {
    /// Whether nothing changes the state any more.
    pub open spec fn is_terminal(self) -> bool {
        self == State::Finished || self == State::Canceled
    }

    /// Whether an action in this state can pass into `next`: one that waits
    /// can run or be canceled, and one that runs can finish.
    pub open spec fn may_become(self, next: State) -> bool {
        ||| self == State::Pending && (next == State::Running || next == State::Canceled)
        ||| self == State::Running && next == State::Finished
    }
}

/// An action with its state: what the view keeps of it.
#[derive(Debug, PartialEq, Eq)]
pub struct StatefulAction {
    pub action: Action,
    pub state: State,
}

/// An action with its state as a value of mathematics.
pub struct StatefulActionView {
    pub action: ActionView,
    pub state: State,
}

impl View for StatefulAction {
    type V = StatefulActionView;

    open spec fn view(&self) -> StatefulActionView {
        StatefulActionView { action: self.action@, state: self.state }
    }
}

impl Clone for StatefulAction {
    fn clone(&self) -> (copy: StatefulAction)
        ensures
            copy == *self,
    {
        StatefulAction { action: self.action.clone(), state: self.state }
    }
}

/// What the session tells the view about an action.
#[derive(Debug)]
pub enum ActionMessage {
    /// An action waits for the operator: its identifier, the action, and
    /// where the decision goes.
    ConfirmAction((u128, Action, futures_channel::oneshot::Sender<bool>)),
    /// An action runs without having been confirmed: its identifier and the action.
    AddAction((u128, Action)),
    /// The action with this identifier has come to its end.
    StopAction(u128),
    /// A session with this identifier has begun.
    NewSession(String),
}

/// What a notification says, without the channel that comes with it.
pub enum Notice {
    Confirm(u128, ActionView),
    Add(u128, ActionView),
    Stop(u128),
    Session(Seq<char>),
}

impl View for ActionMessage {
    type V = Notice;

    open spec fn view(&self) -> Notice {
        match self {
            ActionMessage::ConfirmAction((id, action, _)) => Notice::Confirm(*id, action@),
            ActionMessage::AddAction((id, action)) => Notice::Add(*id, action@),
            ActionMessage::StopAction(id) => Notice::Stop(*id),
            ActionMessage::NewSession(session) => Notice::Session(session@),
        }
    }
}

/// What the environment has to do for an action.
#[derive(Debug, PartialEq, Eq)]
pub enum Effect {
    /// Start `program` with `arguments` and nothing to read, wait for it to
    /// end, and collect what it wrote.
    Run { program: String, arguments: Vec<String> },
    /// Read the whole file at `path`.
    ReadFile { path: String },
    /// Create the file at `path`, or empty it, and write `data` into it.
    WriteFile { path: String, data: Vec<u8> },
}

/// An effect as a value of mathematics.
pub enum EffectView {
    Run { program: Seq<char>, arguments: Seq<Seq<char>> },
    ReadFile { path: Seq<char> },
    WriteFile { path: Seq<char>, data: Seq<u8> },
}

impl View for Effect {
    type V = EffectView;

    open spec fn view(&self) -> EffectView {
        match self {
            Effect::Run { program, arguments } => EffectView::Run {
                program: program@,
                arguments: arguments.deep_view(),
            },
            Effect::ReadFile { path } => EffectView::ReadFile { path: path@ },
            Effect::WriteFile { path, data } => EffectView::WriteFile { path: path@, data: data@ },
        }
    }
}

impl ActionView {
    /// What the action asks of the environment: a command goes to the
    /// interpreter as one argument, a write carries the bytes of its text.
    pub open spec fn effect(self) -> EffectView {
        match self {
            ActionView::Read { path } => EffectView::ReadFile { path },
            ActionView::Command { command } => EffectView::Run {
                program: SHELL@,
                arguments: seq![SHELL_FLAG@, command],
            },
            ActionView::Write { path, content } => EffectView::WriteFile {
                path,
                data: encode_utf8(content),
            },
        }
    }
}

impl Action {
    /// What the environment has to do to carry the action out.
    pub fn effect(&self) -> (effect: Effect)
        ensures
            effect@ == self@.effect(),
    {
        match self {
            Action::Read { path } => Effect::ReadFile { path: path.clone() },
            Action::Command { command } => {
                let mut arguments: Vec<String> = Vec::new();
                arguments.push(SHELL_FLAG.to_owned());
                arguments.push(command.clone());
                let effect = Effect::Run { program: SHELL.to_owned(), arguments };
                assert(effect@->Run_arguments =~= seq![SHELL_FLAG@, command@]);
                effect
            },
            Action::Write { path, content } => Effect::WriteFile {
                path: path.clone(),
                data: content.as_str().as_bytes_vec(),
            },
        }
    }
}

/// What a finished process leaves behind.
#[derive(Debug, PartialEq, Eq)]
pub struct Output {
    /// The exit code; none where a signal ended the process.
    pub exit_code: Option<i32>,
    pub stdout: Vec<u8>,
    pub stderr: Vec<u8>,
}

/// A declaration of `std::string::FromUtf8Error`, so that it can be handed on.
#[verifier::external_type_specification]
#[verifier::external_body]
pub struct ExFromUtf8Error(std::string::FromUtf8Error);

/// `String::from_utf8`: the bytes become a string exactly where they are
/// UTF-8, and the string's bytes are then the bytes given.
#[verifier::external_body]
fn text_of(bytes: Vec<u8>) -> (text: Result<String, std::string::FromUtf8Error>)
    ensures
        text is Ok <==> valid_utf8(bytes@),
        text matches Ok(t) ==> encode_utf8(t@) == bytes@,
{
    String::from_utf8(bytes)
}

/// What a finished process leaves behind, as a value of mathematics.
pub struct OutputView {
    pub exit_code: Option<i32>,
    pub stdout: Seq<u8>,
    pub stderr: Seq<u8>,
}

impl View for Output {
    type V = OutputView;

    open spec fn view(&self) -> OutputView {
        OutputView { exit_code: self.exit_code, stdout: self.stdout@, stderr: self.stderr@ }
    }
}

/// What the environment reports of an effect, as a value of mathematics:
/// what came of it, or the words in which the environment said why it failed.
pub open spec fn reported<T: View>(outcome: Result<T, String>) -> Result<T::V, Seq<char>> {
    match outcome {
        Ok(value) => Ok(value@),
        Err(reason) => Err(reason@),
    }
}

/// The result of an action as a value of mathematics.
pub open spec fn result_view(result: Result<ActionResponse, Error>) -> Result<
    ActionResponseView,
    ErrorView,
> {
    match result {
        Ok(response) => Ok(response@),
        Err(error) => Err(error@),
    }
}

/// The answer to a command, from what became of the interpreter: its output
/// as text where both streams are UTF-8.
pub open spec fn command_answer(outcome: Result<OutputView, Seq<char>>) -> Result<
    ActionResponseView,
    ErrorView,
> {
    match outcome {
        Ok(output) => if valid_utf8(output.stdout) && valid_utf8(output.stderr) {
            Ok(
                ActionResponseView::Command {
                    exit_code: output.exit_code,
                    stdout: decode_utf8(output.stdout),
                    stderr: decode_utf8(output.stderr),
                },
            )
        } else {
            Err(ErrorView::CommandOutputError)
        },
        Err(reason) => Err(ErrorView::CommandError(reason)),
    }
}

/// The answer to a read, from the bytes of the file or the reason why there
/// are none: the text that the bytes spell, where they are UTF-8.
pub open spec fn read_answer(outcome: Result<Seq<u8>, Seq<char>>) -> Result<
    ActionResponseView,
    ErrorView,
> {
    match outcome {
        Ok(bytes) => if valid_utf8(bytes) {
            Ok(ActionResponseView::Read { content: decode_utf8(bytes) })
        } else {
            Err(ErrorView::CommandOutputError)
        },
        Err(reason) => Err(ErrorView::CommandError(reason)),
    }
}

/// The answer to a write of `data`: the number of bytes, or the reason why
/// they were not written.
pub open spec fn write_answer(data: Seq<u8>, outcome: Result<(), Seq<char>>) -> Result<
    ActionResponseView,
    ErrorView,
> {
    match outcome {
        Ok(()) => Ok(ActionResponseView::Write { bytes_written: data.len() as usize }),
        Err(reason) => Err(ErrorView::CommandError(reason)),
    }
}

/// Turns what became of the interpreter into the answer to a command.
pub fn run_command(outcome: Result<Output, String>) -> (result: Result<ActionResponse, Error>)
    ensures
        result_view(result) == command_answer(reported(outcome)),
{
    match outcome {
        Ok(output) => {
            match text_of(output.stdout) {
                Ok(stdout) => match text_of(output.stderr) {
                    Ok(stderr) => {
                        proof {
                            vstd::utf8::encode_utf8_decode_utf8(stdout@);
                            vstd::utf8::encode_utf8_decode_utf8(stderr@);
                        }
                        Ok(ActionResponse::Command { exit_code: output.exit_code, stdout, stderr })
                    },
                    Err(_) => Err(Error::CommandOutputError),
                },
                Err(_) => Err(Error::CommandOutputError),
            }
        },
        Err(reason) => Err(Error::CommandError(reason)),
    }
}

/// Turns the bytes of a file into the answer to a read.
pub fn read_file(outcome: Result<Vec<u8>, String>) -> (result: Result<ActionResponse, Error>)
    ensures
        result_view(result) == read_answer(reported(outcome)),
{
    match outcome {
        Ok(bytes) => match text_of(bytes) {
            Ok(content) => {
                proof {
                    vstd::utf8::encode_utf8_decode_utf8(content@);
                }
                Ok(ActionResponse::Read { content })
            },
            Err(_) => Err(Error::CommandOutputError),
        },
        Err(reason) => Err(Error::CommandError(reason)),
    }
}

/// Turns the success or failure of writing `data` into the answer to a write.
pub fn write_file(data: &Vec<u8>, outcome: Result<(), String>) -> (result: Result<
    ActionResponse,
    Error,
>)
    ensures
        result_view(result) == write_answer(
            data@,
            match outcome {
                Ok(()) => Ok(()),
                Err(reason) => Err(reason@),
            },
        ),
{
    match outcome {
        Ok(()) => Ok(ActionResponse::Write { bytes_written: data.len() }),
        Err(reason) => Err(Error::CommandError(reason)),
    }
}

/// A text that is written can be read back. The bytes that a write hands
/// to the environment are the bytes of its text; the write answers with
/// their number; and a read that finds these bytes answers with the text,
/// character for character.
pub proof fn lemma_write_then_read(path: Seq<char>, content: Seq<char>)
    ensures
        (ActionView::Write { path, content }).effect() == (EffectView::WriteFile {
            path,
            data: encode_utf8(content),
        }),
        write_answer(encode_utf8(content), Ok(())) == Ok::<ActionResponseView, ErrorView>(
            ActionResponseView::Write { bytes_written: encode_utf8(content).len() as usize },
        ),
        read_answer(Ok(encode_utf8(content))) == Ok::<ActionResponseView, ErrorView>(
            ActionResponseView::Read { content },
        ),
{
    vstd::utf8::encode_utf8_valid_utf8(content);
    vstd::utf8::encode_utf8_decode_utf8(content);
}

} // verus!

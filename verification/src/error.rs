//! The failures of the agent.

use vstd::prelude::*;

verus! {

/// Everything that can go wrong in a session, an action or the view.
#[derive(Debug, PartialEq, Eq)]
pub enum Error {
    /// The relay could not be reached, or the connection failed before the
    /// session was open; the text says how.
    CannotConnect(String),
    /// A text frame did not hold the expected JSON.
    SessionIdParseFailure,
    /// The relay did not open with a session identifier.
    NoSessionId,
    /// A frame of a kind that the agent does not handle.
    UnsupportedMessage,
    /// The command interpreter or the file system failed; the text says how.
    CommandError(String),
    /// A command wrote bytes that are not text, or a file held such bytes.
    CommandOutputError,
    /// A notification could not be queued for the view.
    ActionSendError,
    /// The terminal has fewer rows than the view must keep free below its rows.
    TerminalTooSmall,
}

/// A failure as a value of mathematics.
pub enum ErrorView {
    CannotConnect(Seq<char>),
    SessionIdParseFailure,
    NoSessionId,
    UnsupportedMessage,
    CommandError(Seq<char>),
    CommandOutputError,
    ActionSendError,
    TerminalTooSmall,
}

impl View for Error {
    type V = ErrorView;

    open spec fn view(&self) -> ErrorView {
        match self {
            Error::CannotConnect(reason) => ErrorView::CannotConnect(reason@),
            Error::SessionIdParseFailure => ErrorView::SessionIdParseFailure,
            Error::NoSessionId => ErrorView::NoSessionId,
            Error::UnsupportedMessage => ErrorView::UnsupportedMessage,
            Error::CommandError(reason) => ErrorView::CommandError(reason@),
            Error::CommandOutputError => ErrorView::CommandOutputError,
            Error::ActionSendError => ErrorView::ActionSendError,
            Error::TerminalTooSmall => ErrorView::TerminalTooSmall,
        }
    }
}

impl ErrorView {
    /// The sentence that describes the failure. Where the environment said
    /// why a command or a file failed, the sentence ends with its words.
    pub open spec fn text(self) -> Seq<char> {
        match self {
            ErrorView::CannotConnect(_) => "Cannot connect to server"@,
            ErrorView::SessionIdParseFailure => "Failed to parse the session ID"@,
            ErrorView::NoSessionId => "Failed to obtain a session ID"@,
            ErrorView::UnsupportedMessage => "The message type sent by the server is unsupported"@,
            ErrorView::CommandError(reason) => "Error executing command: "@ + reason,
            ErrorView::CommandOutputError => "Command output contains invalid characters"@,
            ErrorView::ActionSendError => "Could not send the action to the tui"@,
            ErrorView::TerminalTooSmall => "The terminal is too small to show the confirmation"@,
        }
    }
}

impl Error {
    /// The sentence that describes the failure, as it is logged and sent to
    /// the relay.
    pub fn message(&self) -> (text: String)
        ensures
            text@ == self@.text(),
    {
        match self {
            Error::CannotConnect(_) => "Cannot connect to server".to_owned(),
            Error::SessionIdParseFailure => "Failed to parse the session ID".to_owned(),
            Error::NoSessionId => "Failed to obtain a session ID".to_owned(),
            Error::UnsupportedMessage => {
                "The message type sent by the server is unsupported".to_owned()
            },
            Error::CommandError(reason) => {
                let mut text = "Error executing command: ".to_owned();
                text.append(reason.as_str());
                text
            },
            Error::CommandOutputError => "Command output contains invalid characters".to_owned(),
            Error::ActionSendError => "Could not send the action to the tui".to_owned(),
            Error::TerminalTooSmall => {
                "The terminal is too small to show the confirmation".to_owned()
            },
        }
    }
}

} // verus!

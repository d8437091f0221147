//! The wire format: what the relay sends as JSON text, and what goes back.

use crate::action::{Action, ActionResponse, ActionResponseView, ActionView};
use crate::json::{parse, parsed, quote, quoted, string_at, strings_of};
use vstd::prelude::*;

verus! {

/// A request of the relay: an action, and the identifier that the answer
/// carries back.
#[derive(Debug, PartialEq, Eq)]
pub struct Request {
    pub data: Action,
    pub request_id: String,
}

/// A request as a value of mathematics.
pub struct RequestView {
    pub data: ActionView,
    pub request_id: Seq<char>,
}

impl View for Request {
    type V = RequestView;

    open spec fn view(&self) -> RequestView {
        RequestView { data: self.data@, request_id: self.request_id@ }
    }
}

/// The answer to a request.
#[derive(Debug, PartialEq, Eq)]
pub struct Response {
    pub data: ActionResponse,
    pub error: bool,
    pub request_id: String,
}

/// An answer as a value of mathematics.
pub struct ResponseView {
    pub data: ActionResponseView,
    pub error: bool,
    pub request_id: Seq<char>,
}

impl View for Response {
    type V = ResponseView;

    open spec fn view(&self) -> ResponseView {
        ResponseView { data: self.data@, error: self.error, request_id: self.request_id@ }
    }
}

/// The session identifier among the strings of a handshake: the member
/// `session_id`.
pub open spec fn session_id_in(strings: Map<Seq<char>, Seq<char>>) -> Option<Seq<char>> {
    if strings.contains_key("/session_id"@) {
        Some(strings["/session_id"@])
    } else {
        None
    }
}

/// The action among the strings of a request. The member `action` of `data`
/// names its kind, and the members that the kind needs have to be there:
/// `command`, or `path`, or `path` and `content`.
pub open spec fn action_in(strings: Map<Seq<char>, Seq<char>>) -> Option<ActionView> {
    if !strings.contains_key("/data/action"@) {
        None
    } else if strings["/data/action"@] == "command"@ {
        if strings.contains_key("/data/command"@) {
            Some(ActionView::Command { command: strings["/data/command"@] })
        } else {
            None
        }
    } else if strings["/data/action"@] == "read"@ {
        if strings.contains_key("/data/path"@) {
            Some(ActionView::Read { path: strings["/data/path"@] })
        } else {
            None
        }
    } else if strings["/data/action"@] == "write"@ {
        if strings.contains_key("/data/path"@) && strings.contains_key("/data/content"@) {
            Some(
                ActionView::Write {
                    path: strings["/data/path"@],
                    content: strings["/data/content"@],
                },
            )
        } else {
            None
        }
    } else {
        None
    }
}

/// The request among the strings of a document: its action and the member
/// `request_id`.
pub open spec fn request_in(strings: Map<Seq<char>, Seq<char>>) -> Option<RequestView> {
    match action_in(strings) {
        Some(data) => if strings.contains_key("/request_id"@) {
            Some(RequestView { data, request_id: strings["/request_id"@] })
        } else {
            None
        },
        None => None,
    }
}

/// The request that a text spells, or nothing where it spells none.
pub open spec fn request_of(text: Seq<char>) -> Option<RequestView> {
    match parsed(text) {
        Some(strings) => request_in(strings),
        None => None,
    }
}

/// The session identifier that a text spells, or nothing where it spells none.
pub open spec fn session_id_of(text: Seq<char>) -> Option<Seq<char>> {
    match parsed(text) {
        Some(strings) => session_id_in(strings),
        None => None,
    }
}

/// The digit for a number below ten.
pub open spec fn digit(value: int) -> char {
    if value == 0 {
        '0'
    } else if value == 1 {
        '1'
    } else if value == 2 {
        '2'
    } else if value == 3 {
        '3'
    } else if value == 4 {
        '4'
    } else if value == 5 {
        '5'
    } else if value == 6 {
        '6'
    } else if value == 7 {
        '7'
    } else if value == 8 {
        '8'
    } else {
        '9'
    }
}

/// A natural number in decimal digits.
pub open spec fn decimal(value: nat) -> Seq<char>
    decreases value,
{
    if value < 10 {
        seq![digit(value as int)]
    } else {
        decimal(value / 10).push(digit((value % 10) as int))
    }
}

/// An integer in decimal digits, with a minus sign where it is negative.
pub open spec fn integer(value: int) -> Seq<char> {
    if value < 0 {
        seq!['-'] + decimal((-value) as nat)
    } else {
        decimal(value as nat)
    }
}

/// An exit code as JSON writes it: the number, or `null` where there is none.
pub open spec fn exit_code_text(exit_code: Option<i32>) -> Seq<char> {
    match exit_code {
        Some(code) => integer(code as int),
        None => "null"@,
    }
}

/// The answer to an action as JSON text: an object with the members of its kind.
pub open spec fn data_text(data: ActionResponseView) -> Seq<char> {
    match data {
        ActionResponseView::Read { content } => "{\"content\":"@ + quoted(content) + "}"@,
        ActionResponseView::Command { exit_code, stdout, stderr } => "{\"exit_code\":"@
            + exit_code_text(exit_code) + ",\"stdout\":"@ + quoted(stdout) + ",\"stderr\":"@
            + quoted(stderr) + "}"@,
        ActionResponseView::Write { bytes_written } => "{\"bytes_written\":"@ + decimal(
            bytes_written as nat,
        ) + "}"@,
        ActionResponseView::Error(message) => "{\"Error\":"@ + quoted(message) + "}"@,
    }
}

/// A response as JSON text: an object with the members `data`, `error` and
/// `request_id`, in this order and without blanks.
pub open spec fn response_text(response: ResponseView) -> Seq<char> {
    "{\"data\":"@ + data_text(response.data) + ",\"error\":"@ + (if response.error {
        "true"@
    } else {
        "false"@
    }) + ",\"request_id\":"@ + quoted(response.request_id) + "}"@
}

/// The digit for a number below ten, as a string.
fn digit_text(value: u64) -> (text: &'static str)
    requires
        value < 10,
    ensures
        text@ == seq![digit(value as int)],
{
    proof {
        reveal_strlit("0");
        reveal_strlit("1");
        reveal_strlit("2");
        reveal_strlit("3");
        reveal_strlit("4");
        reveal_strlit("5");
        reveal_strlit("6");
        reveal_strlit("7");
        reveal_strlit("8");
        reveal_strlit("9");
    }
    let text = if value == 0 {
        "0"
    } else if value == 1 {
        "1"
    } else if value == 2 {
        "2"
    } else if value == 3 {
        "3"
    } else if value == 4 {
        "4"
    } else if value == 5 {
        "5"
    } else if value == 6 {
        "6"
    } else if value == 7 {
        "7"
    } else if value == 8 {
        "8"
    } else {
        "9"
    };
    assert(text@ =~= seq![digit(value as int)]);
    text
}

/// Appends a natural number in decimal digits.
pub fn push_decimal(text: &mut String, value: u64)
    ensures
        final(text)@ == old(text)@ + decimal(value as nat),
    decreases value,
{
    if value < 10 {
        text.append(digit_text(value));
    } else {
        push_decimal(text, value / 10);
        text.append(digit_text(value % 10));
        assert(final(text)@ =~= old(text)@ + decimal(value as nat));
    }
}

/// Appends an integer in decimal digits.
pub fn push_integer(text: &mut String, value: i32)
    ensures
        final(text)@ == old(text)@ + integer(value as int),
{
    if value < 0 {
        proof {
            reveal_strlit("-");
        }
        text.append("-");
        let magnitude: u64 = (-(value as i64)) as u64;
        push_decimal(text, magnitude);
        assert(final(text)@ =~= old(text)@ + integer(value as int));
    } else {
        push_decimal(text, value as u64);
    }
}

/// Appends the answer to an action as JSON text.
pub fn push_data(text: &mut String, data: &ActionResponse)
    ensures
        final(text)@ == old(text)@ + data_text(data@),
{
    match data {
        ActionResponse::Read { content } => {
            text.append("{\"content\":");
            text.append(quote(content.as_str()).as_str());
            text.append("}");
        },
        ActionResponse::Command { exit_code, stdout, stderr } => {
            text.append("{\"exit_code\":");
            match exit_code {
                Some(code) => push_integer(text, *code),
                None => text.append("null"),
            }
            text.append(",\"stdout\":");
            text.append(quote(stdout.as_str()).as_str());
            text.append(",\"stderr\":");
            text.append(quote(stderr.as_str()).as_str());
            text.append("}");
        },
        ActionResponse::Write { bytes_written } => {
            text.append("{\"bytes_written\":");
            push_decimal(text, *bytes_written as u64);
            text.append("}");
        },
        ActionResponse::Error(message) => {
            text.append("{\"Error\":");
            text.append(quote(message.as_str()).as_str());
            text.append("}");
        },
    }
    assert(final(text)@ =~= old(text)@ + data_text(data@));
}

/// Writes a response as JSON text.
pub fn encode_response(response: &Response) -> (text: String)
    ensures
        text@ == response_text(response@),
{
    let mut text = "{\"data\":".to_owned();
    push_data(&mut text, &response.data);
    text.append(",\"error\":");
    if response.error {
        text.append("true");
    } else {
        text.append("false");
    }
    text.append(",\"request_id\":");
    text.append(quote(response.request_id.as_str()).as_str());
    text.append("}");
    assert(text@ =~= response_text(response@));
    text
}

/// Finds the session identifier in a parsed handshake.
pub fn session_id_from(document: &serde_json::Value) -> (session_id: Option<String>)
    ensures
        session_id is Some <==> session_id_in(strings_of(*document)) is Some,
        session_id matches Some(id) ==> Some(id@) == session_id_in(strings_of(*document)),
{
    string_at(document, "/session_id")
}

/// Finds the action in a parsed request.
pub fn action_from(document: &serde_json::Value) -> (action: Option<Action>)
    ensures
        action is Some <==> action_in(strings_of(*document)) is Some,
        action matches Some(found) ==> Some(found@) == action_in(strings_of(*document)),
{
    let kind = match string_at(document, "/data/action") {
        Some(kind) => kind,
        None => {
            return None;
        },
    };
    if kind == "command".to_owned() {
        match string_at(document, "/data/command") {
            Some(command) => Some(Action::Command { command }),
            None => None,
        }
    } else if kind == "read".to_owned() {
        match string_at(document, "/data/path") {
            Some(path) => Some(Action::Read { path }),
            None => None,
        }
    } else if kind == "write".to_owned() {
        match string_at(document, "/data/path") {
            Some(path) => match string_at(document, "/data/content") {
                Some(content) => Some(Action::Write { path, content }),
                None => None,
            },
            None => None,
        }
    } else {
        None
    }
}

/// Finds the request in a parsed document.
pub fn request_from(document: &serde_json::Value) -> (request: Option<Request>)
    ensures
        request is Some <==> request_in(strings_of(*document)) is Some,
        request matches Some(found) ==> Some(found@) == request_in(strings_of(*document)),
{
    match action_from(document) {
        Some(data) => match string_at(document, "/request_id") {
            Some(request_id) => Some(Request { data, request_id }),
            None => None,
        },
        None => None,
    }
}

/// Reads the session identifier from the text of a handshake.
pub fn decode_session_id(text: &str) -> (session_id: Option<String>)
    ensures
        session_id is Some <==> session_id_of(text@) is Some,
        session_id matches Some(id) ==> Some(id@) == session_id_of(text@),
{
    match parse(text) {
        Some(document) => session_id_from(&document),
        None => None,
    }
}

/// Reads a request from the text of a frame.
pub fn decode_request(text: &str) -> (request: Option<Request>)
    ensures
        request is Some <==> request_of(text@) is Some,
        request matches Some(found) ==> Some(found@) == request_of(text@),
{
    match parse(text) {
        Some(document) => request_from(&document),
        None => None,
    }
}

} // verus!

//! The protocol of the room service: the addresses of its operations, the
//! substitution that makes a text fit into a path, and the reading of what
//! came back.
//!
//! Nothing here sends a request. The caller sends it to the address given
//! and hands back a `Reply`.

use crate::text::{
    count_fault, decimal, decimal_string, fault_text, fault_words, join, parsed_count, read_count,
    views,
};
use rand::Rng;
use vstd::prelude::*;

verus! {

/// The error that `serde_json` reports for a text that it cannot read.
#[verifier::external_type_specification]
#[verifier::external_body]
pub struct ExJsonError(serde_json::Error);

/// The kinds of failure of a request to the room service.
#[derive(Clone, Copy, Debug, PartialEq, Eq, Structural)]
pub enum ErrorKind {
    /// The service answered with a status from 500 to 599.
    ServerError,
    /// The service answered with status 429.
    RateLimited,
    /// The service answered with status 401.
    Unauthorized,
    /// The request was not answered, or the answer could not be read; a
    /// request that timed out is of this kind.
    Transport,
    /// The answer was read and is not of the expected form.
    DeserializeError,
}

/// A failed request to the room service.
#[derive(Clone, Debug, PartialEq, Eq)]
pub struct NetchatError {
    pub kind: ErrorKind,
    /// The failure in words.
    pub message: String,
}

pub struct NetchatErrorView {
    pub kind: ErrorKind,
    pub message: Seq<char>,
}

impl View for NetchatError {
    type V = NetchatErrorView;

    open spec fn view(&self) -> NetchatErrorView {
        NetchatErrorView { kind: self.kind, message: self.message@ }
    }
}

/// The operations of the room service.
#[derive(Clone, Copy, Debug, PartialEq, Eq, Structural)]
pub enum Operation {
    FetchRoom,
    FetchMessageCount,
    FetchMessages,
    SendMessage,
}

/// What came back from one request.
#[derive(Clone, Debug, PartialEq, Eq)]
pub enum Reply {
    /// No answer: the request could not be sent or timed out. The text
    /// says why.
    Unsent(String),
    /// An answer with this status, whose body could not be read. The text
    /// says why.
    Unread(u16, String),
    /// An answer with this status and this body.
    Read(u16, String),
}

pub enum ReplyView {
    Unsent(Seq<char>),
    Unread(u16, Seq<char>),
    Read(u16, Seq<char>),
}

impl View for Reply {
    type V = ReplyView;

    open spec fn view(&self) -> ReplyView {
        match self {
            Reply::Unsent(error) => ReplyView::Unsent(error@),
            Reply::Unread(status, error) => ReplyView::Unread(*status, error@),
            Reply::Read(status, body) => ReplyView::Read(*status, body@),
        }
    }
}

/// The failure that a status stands for, if it stands for one.
pub open spec fn status_failure(status: u16) -> Option<ErrorKind> {
    if 500 <= status <= 599 {
        Some(ErrorKind::ServerError)
    } else if status == 429 {
        Some(ErrorKind::RateLimited)
    } else if status == 401 {
        Some(ErrorKind::Unauthorized)
    } else {
        None
    }
}

/// An operation in words.
pub open spec fn operation_text(operation: Operation) -> Seq<char> {
    match operation {
        Operation::FetchRoom => "fetching room"@,
        Operation::FetchMessageCount => "fetching message count"@,
        Operation::FetchMessages => "fetching messages"@,
        Operation::SendMessage => "sending message"@,
    }
}

/// The failure of kind `kind` that a status stands for, in words.
pub open spec fn status_message(kind: ErrorKind, operation: Operation) -> Seq<char> {
    match kind {
        ErrorKind::ServerError => "encountered server error while "@ + operation_text(operation),
        ErrorKind::RateLimited => "encountered ratelimit while "@ + operation_text(operation),
        _ => "unauthorized while "@ + operation_text(operation),
    }
}

/// The words for a request that was not answered.
pub open spec fn unsent_message(error: Seq<char>) -> Seq<char> {
    "failed to send GET request: "@ + error
}

/// The words for an answer whose body could not be read.
pub open spec fn unread_message(operation: Operation, error: Seq<char>) -> Seq<char> {
    "failed to get response text while "@ + operation_text(operation) + ": "@ + error
}

/// The words for a body that is not of the expected form.
pub open spec fn deserialize_message(operation: Operation, error: Seq<char>) -> Seq<char> {
    "failed to deserialize response while "@ + operation_text(operation) + ": "@ + error
}

/// The failure that the status of an answer stands for.
pub open spec fn status_error(status: u16, operation: Operation) -> Option<NetchatErrorView> {
    match status_failure(status) {
        Some(kind) => Some(
            NetchatErrorView { kind, message: status_message(kind, operation) },
        ),
        None => None,
    }
}

/// The failure of a reply to an operation that reads the body, as far as it
/// shows without looking into the body: no answer, a status that stands for
/// a failure, or a body that could not be read.
pub open spec fn reply_failure(reply: ReplyView, operation: Operation) -> Option<
    NetchatErrorView,
> {
    match reply {
        ReplyView::Unsent(error) => Some(
            NetchatErrorView { kind: ErrorKind::Transport, message: unsent_message(error) },
        ),
        ReplyView::Unread(status, error) => match status_error(status, operation) {
            Some(failure) => Some(failure),
            None => Some(
                NetchatErrorView {
                    kind: ErrorKind::Transport,
                    message: unread_message(operation, error),
                },
            ),
        },
        ReplyView::Read(status, body) => status_error(status, operation),
    }
}

/// The failure of a reply to an operation that ignores the body: no
/// answer, or a status that stands for a failure.
pub open spec fn send_failure(reply: ReplyView) -> Option<NetchatErrorView> {
    match reply {
        ReplyView::Unsent(error) => Some(
            NetchatErrorView { kind: ErrorKind::Transport, message: unsent_message(error) },
        ),
        ReplyView::Unread(status, error) => status_error(status, Operation::SendMessage),
        ReplyView::Read(status, body) => status_error(status, Operation::SendMessage),
    }
}

/// The body of a reply that was read.
pub open spec fn body_of(reply: ReplyView) -> Seq<char> {
    match reply {
        ReplyView::Read(status, body) => body,
        _ => Seq::empty(),
    }
}

/// The list of strings that a JSON text holds, as `serde_json` reads it;
/// `None` where `serde_json` does not read the text as a list of strings.
pub uninterp spec fn json_string_array(text: Seq<char>) -> Option<Seq<Seq<char>>>;

/// `serde_json::from_str` at the type `Vec<String>`: reads a JSON text as
/// a list of strings. What it gives depends on the text alone and is named
/// `json_string_array`.
#[verifier::external_body]
fn parse_string_array(text: &str) -> (parsed: Result<Vec<String>, serde_json::Error>)
    ensures
        match parsed {
            Ok(list) => json_string_array(text@) == Some(views(list@)),
            Err(error) => json_string_array(text@) is None,
        },
{
    serde_json::from_str::<Vec<String>>(text)
}

/// The words of an error of `serde_json`, as its `Display` gives them.
/// Nothing is claimed of them.
#[verifier::external_body]
fn json_error_text(error: &serde_json::Error) -> (words: String) {
    error.to_string()
}

/// The operation in words.
pub fn operation_name(operation: Operation) -> (name: &'static str)
    ensures
        name@ == operation_text(operation),
{
    match operation {
        Operation::FetchRoom => "fetching room",
        Operation::FetchMessageCount => "fetching message count",
        Operation::FetchMessages => "fetching messages",
        Operation::SendMessage => "sending message",
    }
}

/// The failure that a status stands for, if it stands for one.
pub fn check_status(status: u16, operation: Operation) -> (failure: Option<NetchatError>)
    ensures
        match status_error(status, operation) {
            Some(error) => failure matches Some(e) && e@ == error,
            None => failure is None,
        },
{
    if 500 <= status && status <= 599 {
        Some(
            NetchatError {
                kind: ErrorKind::ServerError,
                message: join("encountered server error while ", operation_name(operation)),
            },
        )
    } else if status == 429 {
        Some(
            NetchatError {
                kind: ErrorKind::RateLimited,
                message: join("encountered ratelimit while ", operation_name(operation)),
            },
        )
    } else if status == 401 {
        Some(
            NetchatError {
                kind: ErrorKind::Unauthorized,
                message: join("unauthorized while ", operation_name(operation)),
            },
        )
    } else {
        None
    }
}

/// The failure of kind `DeserializeError` for a body that `operation`
/// cannot use; `error` says why.
pub fn deserialize_error(operation: Operation, error: &str) -> (failure: NetchatError)
    ensures
        failure@ == (NetchatErrorView {
            kind: ErrorKind::DeserializeError,
            message: deserialize_message(operation, error@),
        }),
{
    let mut message = join("failed to deserialize response while ", operation_name(operation));
    message.append(": ");
    message.append(error);
    NetchatError { kind: ErrorKind::DeserializeError, message }
}

/// The body of a reply to `operation`, or the failure that the reply
/// shows without looking into the body.
pub fn read_body(reply: Reply, operation: Operation) -> (result: Result<String, NetchatError>)
    ensures
        match reply_failure(reply@, operation) {
            Some(failure) => result matches Err(e) && e@ == failure,
            None => result matches Ok(body) && body@ == body_of(reply@),
        },
{
    match reply {
        Reply::Unsent(error) => Err(
            NetchatError {
                kind: ErrorKind::Transport,
                message: join("failed to send GET request: ", error.as_str()),
            },
        ),
        Reply::Unread(status, error) => match check_status(status, operation) {
            Some(failure) => Err(failure),
            None => {
                let mut message = join(
                    "failed to get response text while ",
                    operation_name(operation),
                );
                message.append(": ");
                message.append(error.as_str());
                Err(NetchatError { kind: ErrorKind::Transport, message })
            },
        },
        Reply::Read(status, body) => match check_status(status, operation) {
            Some(failure) => Err(failure),
            None => Ok(body),
        },
    }
}

/// Reads the reply to a fetch of a room's page: the page, unless the reply
/// shows a failure.
pub fn get_room(reply: Reply) -> (result: Result<String, NetchatError>)
    ensures
        match reply_failure(reply@, Operation::FetchRoom) {
            Some(failure) => result matches Err(e) && e@ == failure,
            None => result matches Ok(page) && page@ == body_of(reply@),
        },
{
    read_body(reply, Operation::FetchRoom)
}

/// Reads the reply to a fetch of a room's message counter: the count that
/// the body spells. A body that spells none is a failure of kind
/// `DeserializeError`, whose words end with why it spells none.
pub fn get_room_message_count(reply: Reply) -> (result: Result<usize, NetchatError>)
    ensures
        match reply_failure(reply@, Operation::FetchMessageCount) {
            Some(failure) => result matches Err(e) && e@ == failure,
            None => match parsed_count(body_of(reply@)) {
                Some(count) => result == Ok::<usize, NetchatError>(count),
                None => count_fault(body_of(reply@)) matches Some(fault) && result matches Err(e)
                    && e@ == (NetchatErrorView {
                    kind: ErrorKind::DeserializeError,
                    message: deserialize_message(
                        Operation::FetchMessageCount,
                        fault_words(fault),
                    ),
                }),
            },
        },
{
    match read_body(reply, Operation::FetchMessageCount) {
        Err(failure) => Err(failure),
        Ok(body) => match read_count(body.as_str()) {
            Ok(count) => Ok(count),
            Err(fault) => Err(deserialize_error(Operation::FetchMessageCount, fault_text(fault))),
        },
    }
}

/// The messages of a body that was read as a list of strings, or the
/// failure of kind `DeserializeError` for one that was not; `parsed` holds
/// the list, or the reader's words.
pub fn decoded_messages(parsed: Result<Vec<String>, String>) -> (result: Result<
    Vec<String>,
    NetchatError,
>)
    ensures
        match parsed {
            Ok(list) => result matches Ok(messages) && messages == list,
            Err(error) => result matches Err(e) && e@ == (NetchatErrorView {
                kind: ErrorKind::DeserializeError,
                message: deserialize_message(Operation::FetchMessages, error@),
            }),
        },
{
    match parsed {
        Ok(list) => Ok(list),
        Err(error) => Err(deserialize_error(Operation::FetchMessages, error.as_str())),
    }
}

/// Reads the reply to a fetch of a room's messages: the list of strings
/// that the body holds as JSON, oldest message first. A body that holds
/// none is a failure of kind `DeserializeError`, whose words end with
/// those of the JSON reader.
pub fn get_room_messages(reply: Reply) -> (result: Result<Vec<String>, NetchatError>)
    ensures
        match reply_failure(reply@, Operation::FetchMessages) {
            Some(failure) => result matches Err(e) && e@ == failure,
            None => match json_string_array(body_of(reply@)) {
                Some(list) => result matches Ok(messages) && views(messages@) == list,
                None => result matches Err(e) && e@.kind == ErrorKind::DeserializeError
                    && exists|error: Seq<char>|
                    e@.message == deserialize_message(Operation::FetchMessages, error),
            },
        },
{
    match read_body(reply, Operation::FetchMessages) {
        Err(failure) => Err(failure),
        Ok(body) => {
            let parsed = match parse_string_array(body.as_str()) {
                Ok(list) => Ok(list),
                Err(error) => Err(json_error_text(&error)),
            };
            decoded_messages(parsed)
        },
    }
}

/// Reads the reply to the sending of a message. The body is not looked at.
pub fn send_message(reply: Reply) -> (result: Result<(), NetchatError>)
    ensures
        match send_failure(reply@) {
            Some(failure) => result matches Err(e) && e@ == failure,
            None => result is Ok,
        },
{
    match reply {
        Reply::Unsent(error) => Err(
            NetchatError {
                kind: ErrorKind::Transport,
                message: join("failed to send GET request: ", error.as_str()),
            },
        ),
        Reply::Unread(status, error) => match check_status(status, Operation::SendMessage) {
            Some(failure) => Err(failure),
            None => Ok(()),
        },
        Reply::Read(status, body) => match check_status(status, Operation::SendMessage) {
            Some(failure) => Err(failure),
            None => Ok(()),
        },
    }
}

/// Whether the room accepts the password, read from the outcome of a fetch
/// made with it: a fetch that worked says yes, one that failed as
/// `Unauthorized` says no, and any other failure stays a failure.
pub fn password_accepted<T>(fetched: Result<T, NetchatError>) -> (result: Result<
    bool,
    NetchatError,
>)
    ensures
        match fetched {
            Ok(value) => result == Ok::<bool, NetchatError>(true),
            Err(error) => if error.kind == ErrorKind::Unauthorized {
                result == Ok::<bool, NetchatError>(false)
            } else {
                result == Err::<bool, NetchatError>(error)
            },
        },
{
    match fetched {
        Ok(value) => Ok(true),
        Err(error) => match error.kind {
            ErrorKind::Unauthorized => Ok(false),
            _ => Err(error),
        },
    }
}

/// Whether the room is still initializing, read from the outcome of a
/// fetch of its message counter: a room that is being set up answers with
/// a body that is no count yet, so a failure of kind `DeserializeError`
/// says yes. A fetch that worked says no. So does a failure of kind
/// `Unauthorized`: a room that turns the password down is there, and
/// whether the password is right is another question. Any other failure
/// stays a failure.
pub fn still_initializing(fetched: Result<usize, NetchatError>) -> (result: Result<
    bool,
    NetchatError,
>)
    ensures
        match fetched {
            Ok(count) => result == Ok::<bool, NetchatError>(false),
            Err(error) => if error.kind == ErrorKind::DeserializeError {
                result == Ok::<bool, NetchatError>(true)
            } else if error.kind == ErrorKind::Unauthorized {
                result == Ok::<bool, NetchatError>(false)
            } else {
                result == Err::<bool, NetchatError>(error)
            },
        },
{
    match fetched {
        Ok(count) => Ok(false),
        Err(error) => match error.kind {
            ErrorKind::DeserializeError => Ok(true),
            ErrorKind::Unauthorized => Ok(false),
            _ => Err(error),
        },
    }
}

/// The placeholder that stands for `c` in a path, where `c` cannot stand
/// there itself.
pub open spec fn placeholder(c: char) -> Option<Seq<char>> {
    if c == '#' {
        Some("||HAS||"@)
    } else if c == '%' {
        Some("||PER||"@)
    } else if c == '&' {
        Some("||AMP||"@)
    } else if c == '/' {
        Some("||SLA||"@)
    } else if c == '?' {
        Some("||QUE||"@)
    } else if c == '\\' {
        Some("||RSLA||"@)
    } else if c == '\n' {
        Some("||NEWL||"@)
    } else {
        None
    }
}

/// What stands for `c` in a path: its placeholder, or `c` itself.
pub open spec fn escaped_char(c: char) -> Seq<char> {
    match placeholder(c) {
        Some(token) => token,
        None => seq![c],
    }
}

/// `text` as it stands in a path: every character that cannot stand there
/// is replaced by its placeholder.
pub open spec fn escaped(text: Seq<char>) -> Seq<char>
    decreases text.len(),
{
    if text.len() == 0 {
        Seq::empty()
    } else {
        escaped(text.drop_last()) + escaped_char(text.last())
    }
}

/// The placeholder for `c`, if it has one.
pub fn placeholder_of(c: char) -> (token: Option<&'static str>)
    ensures
        match placeholder(c) {
            Some(expected) => token matches Some(t) && t@ == expected,
            None => token is None,
        },
{
    if c == '#' {
        Some("||HAS||")
    } else if c == '%' {
        Some("||PER||")
    } else if c == '&' {
        Some("||AMP||")
    } else if c == '/' {
        Some("||SLA||")
    } else if c == '?' {
        Some("||QUE||")
    } else if c == '\\' {
        Some("||RSLA||")
    } else if c == '\n' {
        Some("||NEWL||")
    } else {
        None
    }
}

/// `text` as it stands in a path.
pub fn escape(text: &str) -> (result: String)
    ensures
        result@ == escaped(text@),
{
    let mut result = String::new();
    let ghost mut seen: Seq<char> = Seq::empty();
    for c in it: text.chars()
        invariant
            seen == it.history(),
            result@ == escaped(seen),
    {
        proof {
            assert(seen.push(c).drop_last() =~= seen);
            seen = seen.push(c);
        }
        match placeholder_of(c) {
            Some(token) => {
                result.append(token);
            },
            None => {
                let ghost before = result@;
                result.push(c);
                assert(result@ =~= before + seq![c]);
            },
        }
    }
    assert(seen =~= text@);
    result
}

/// No character of an escaped text has a placeholder: the text can stand
/// in a path as it is.
pub proof fn lemma_escaped_fits_path(text: Seq<char>)
    ensures
        forall|i: int| 0 <= i < escaped(text).len() ==> placeholder(#[trigger] escaped(text)[i]) is None,
    decreases text.len(),
{
    reveal_strlit("||HAS||");
    reveal_strlit("||PER||");
    reveal_strlit("||AMP||");
    reveal_strlit("||SLA||");
    reveal_strlit("||QUE||");
    reveal_strlit("||RSLA||");
    reveal_strlit("||NEWL||");
    if text.len() > 0 {
        lemma_escaped_fits_path(text.drop_last());
        let head = escaped(text.drop_last());
        let tail = escaped_char(text.last());
        assert forall|j: int| 0 <= j < tail.len() implies placeholder(#[trigger] tail[j]) is None by {}
        assert forall|i: int| 0 <= i < escaped(text).len() implies placeholder(
            #[trigger] escaped(text)[i],
        ) is None by {
            if i < head.len() {
                assert(escaped(text)[i] == head[i]);
            } else {
                assert(escaped(text)[i] == tail[i - head.len()]);
            }
        }
    }
}

/// The address of the room service.
pub open spec fn instance() -> Seq<char> {
    "https://netchat.repl.co"@
}

/// The address of the operation `endpoint` on the room `name`.
pub open spec fn room_address(name: Seq<char>, password: Seq<char>, endpoint: Seq<char>) -> Seq<
    char,
> {
    instance() + "/"@ + password + "/"@ + name + "/"@ + endpoint
}

/// The address that sends `message` under the name `username` to the room
/// `name`: both texts stand in it escaped.
pub open spec fn send_address(
    name: Seq<char>,
    password: Seq<char>,
    username: Seq<char>,
    message: Seq<char>,
) -> Seq<char> {
    room_address(name, password, ":FFFFFF/:000000/send/"@) + escaped(username) + "/"@ + escaped(
        message,
    )
}

/// The address of the operation `endpoint` on the room `name`.
pub fn room_url(name: &str, password: &str, endpoint: &str) -> (url: String)
    ensures
        url@ == room_address(name@, password@, endpoint@),
{
    let mut url = join("https://netchat.repl.co", "/");
    url.append(password);
    url.append("/");
    url.append(name);
    url.append("/");
    url.append(endpoint);
    url
}

/// The address that gives the page of the room `name`.
pub fn get_room_url(name: &str, password: &str) -> (url: String)
    ensures
        url@ == room_address(name@, password@, "allMessages"@),
{
    room_url(name, password, "allMessages")
}

/// The address that gives the message counter of the room `name`.
pub fn get_room_message_count_url(name: &str, password: &str) -> (url: String)
    ensures
        url@ == room_address(name@, password@, "messageCount"@),
{
    room_url(name, password, "messageCount")
}

/// The address that gives the messages of the room `name`.
pub fn get_room_messages_url(name: &str, password: &str) -> (url: String)
    ensures
        url@ == room_address(name@, password@, "rawMessages"@),
{
    room_url(name, password, "rawMessages")
}

/// The address that sends `message` under the name `username` to the room
/// `name`.
pub fn send_message_url(name: &str, password: &str, username: &str, message: &str) -> (url:
    String)
    ensures
        url@ == send_address(name@, password@, username@, message@),
{
    let mut url = room_url(name, password, ":FFFFFF/:000000/send/");
    let formatted_username = escape(username);
    let formatted_message = escape(message);
    url.append(formatted_username.as_str());
    url.append("/");
    url.append(formatted_message.as_str());
    url
}

/// `rand::thread_rng().gen()` at the type `u64`: a number drawn at random
/// from the generator of the calling thread. Nothing is claimed of it. The
/// generator is seeded by the system on its first use in a thread and
/// stops the process where the system has no randomness to give.
#[verifier::external_body]
fn random_number() -> (number: u64) {
    rand::thread_rng().gen()
}

/// The name under which a session with the identifier `id` sends its
/// requests.
pub open spec fn agent_name(version: Seq<char>, id: u64) -> Seq<char> {
    "netchat_bridge/"@ + version + " (id:"@ + decimal(id as nat) + ") reqwest"@
}

/// A session with the room service, told from others by its identifier.
/// It is made once, when the process starts, and handed to whatever sends
/// requests.
#[derive(Clone, Debug, PartialEq, Eq)]
pub struct Session {
    pub id: u64,
}

impl Session {
    /// A session with an identifier drawn at random.
    pub fn start() -> (session: Session) {
        Session { id: random_number() }
    }

    /// The name under which the session sends its requests.
    pub fn user_agent(&self, version: &str) -> (agent: String)
        ensures
            agent@ == agent_name(version@, self.id),
    {
        let mut agent = join("netchat_bridge/", version);
        agent.append(" (id:");
        let id = decimal_string(self.id);
        agent.append(id.as_str());
        agent.append(") reqwest");
        agent
    }
}

} // verus!

//! The vocabulary between a flow of the library and the code that runs it:
//! the outside work a flow asks for, what that work gave, and what a flow
//! hands out on the way.

use crate::netchat::{NetchatError, NetchatErrorView};
use crate::text::views;
use crate::{
    BridgeMapping, BridgedRoomData, InboundBridgeMessage, MatrixBridgeMessage, NetChatBridgeMessage,
    OutboundBridgeMessage,
};
use vstd::prelude::*;

verus! {

/// The kind of a line of the log.
#[derive(Clone, Copy, Debug, PartialEq, Eq, Structural)]
pub enum LogMessageType {
    Bot,
    Bridge,
    Matrix,
    Warning,
    Error,
    MatrixWarning,
    MatrixError,
}

/// What the store holds under the key of a room's mapping.
#[derive(Clone, Debug, PartialEq, Eq)]
pub enum Stored {
    /// Nothing.
    Absent,
    /// A value that is no mapping; the text says why.
    Corrupt(String),
    /// A mapping.
    Present(BridgedRoomData),
}

pub enum StoredView {
    Absent,
    Corrupt(Seq<char>),
    Present(BridgeMapping),
}

impl View for Stored {
    type V = StoredView;

    open spec fn view(&self) -> StoredView {
        match self {
            Stored::Absent => StoredView::Absent,
            Stored::Corrupt(reason) => StoredView::Corrupt(reason@),
            Stored::Present(data) => StoredView::Present(data@),
        }
    }
}

/// One piece of outside work that a flow waits for.
#[derive(Clone, Debug, PartialEq, Eq)]
pub enum Request {
    /// The power level of `user_id` in the chat room `room_id`.
    PowerLevel { room_id: String, user_id: String },
    /// The display name of `user_id` in the chat room `room_id`.
    DisplayName { room_id: String, user_id: String },
    /// Read the mapping stored under `key`.
    LoadMapping { key: String },
    /// Store `data` under `key`, in one write.
    SaveMapping { key: String, data: BridgedRoomData },
    /// Read the name stored under `key`.
    LoadName { key: String },
    /// Store `name` under `key`.
    SaveName { key: String, name: String },
    /// Remove what is stored under `key`.
    Remove { key: String },
    /// Whether the room of the message service is still initializing.
    Initializing { room_name: String, room_password: String },
    /// Whether the room of the message service accepts the password.
    CheckPassword { room_name: String, room_password: String },
    /// The message counter of the room.
    MessageCount { room_name: String, room_password: String },
    /// All messages of the room, oldest first.
    Messages { room_name: String, room_password: String },
}

pub enum RequestView {
    PowerLevel { room_id: Seq<char>, user_id: Seq<char> },
    DisplayName { room_id: Seq<char>, user_id: Seq<char> },
    LoadMapping { key: Seq<char> },
    SaveMapping { key: Seq<char>, data: BridgeMapping },
    LoadName { key: Seq<char> },
    SaveName { key: Seq<char>, name: Seq<char> },
    Remove { key: Seq<char> },
    Initializing { room_name: Seq<char>, room_password: Seq<char> },
    CheckPassword { room_name: Seq<char>, room_password: Seq<char> },
    MessageCount { room_name: Seq<char>, room_password: Seq<char> },
    Messages { room_name: Seq<char>, room_password: Seq<char> },
}

impl View for Request {
    type V = RequestView;

    open spec fn view(&self) -> RequestView {
        match self {
            Request::PowerLevel { room_id, user_id } => RequestView::PowerLevel {
                room_id: room_id@,
                user_id: user_id@,
            },
            Request::DisplayName { room_id, user_id } => RequestView::DisplayName {
                room_id: room_id@,
                user_id: user_id@,
            },
            Request::LoadMapping { key } => RequestView::LoadMapping { key: key@ },
            Request::SaveMapping { key, data } => RequestView::SaveMapping {
                key: key@,
                data: data@,
            },
            Request::LoadName { key } => RequestView::LoadName { key: key@ },
            Request::SaveName { key, name } => RequestView::SaveName { key: key@, name: name@ },
            Request::Remove { key } => RequestView::Remove { key: key@ },
            Request::Initializing { room_name, room_password } => RequestView::Initializing {
                room_name: room_name@,
                room_password: room_password@,
            },
            Request::CheckPassword { room_name, room_password } => RequestView::CheckPassword {
                room_name: room_name@,
                room_password: room_password@,
            },
            Request::MessageCount { room_name, room_password } => RequestView::MessageCount {
                room_name: room_name@,
                room_password: room_password@,
            },
            Request::Messages { room_name, room_password } => RequestView::Messages {
                room_name: room_name@,
                room_password: room_password@,
            },
        }
    }
}

/// What a piece of outside work gave.
#[derive(Clone, Debug, PartialEq, Eq)]
pub enum Event {
    /// The user's power level; `None` where the room has no such member.
    PowerLevel(Option<i64>),
    /// The user's display name; `None` where the room has no such member
    /// or the member has no display name.
    DisplayName(Option<String>),
    /// The lookup on the chat platform failed.
    LookupFailed(String),
    /// What the store holds under the key of a mapping.
    Mapping(Stored),
    /// The name stored under the key; `None` where there is none.
    Name(Option<String>),
    /// The write or the removal was made.
    Written,
    /// The store failed.
    StoreFailed(String),
    /// The answer to a yes-or-no question about a room.
    Flag(bool),
    /// The message counter of a room.
    Count(usize),
    /// All messages of a room, oldest first.
    Messages(Vec<String>),
    /// The request to the room service failed.
    RoomFailed(NetchatError),
}

pub enum EventView {
    PowerLevel(Option<i64>),
    DisplayName(Option<Seq<char>>),
    LookupFailed(Seq<char>),
    Mapping(StoredView),
    Name(Option<Seq<char>>),
    Written,
    StoreFailed(Seq<char>),
    Flag(bool),
    Count(usize),
    Messages(Seq<Seq<char>>),
    RoomFailed(NetchatErrorView),
}

/// The view of an optional string.
pub open spec fn option_view(value: Option<String>) -> Option<Seq<char>> {
    match value {
        Some(text) => Some(text@),
        None => None,
    }
}

impl View for Event {
    type V = EventView;

    open spec fn view(&self) -> EventView {
        match self {
            Event::PowerLevel(level) => EventView::PowerLevel(*level),
            Event::DisplayName(name) => EventView::DisplayName(option_view(*name)),
            Event::LookupFailed(error) => EventView::LookupFailed(error@),
            Event::Mapping(stored) => EventView::Mapping(stored@),
            Event::Name(name) => EventView::Name(option_view(*name)),
            Event::Written => EventView::Written,
            Event::StoreFailed(error) => EventView::StoreFailed(error@),
            Event::Flag(flag) => EventView::Flag(*flag),
            Event::Count(count) => EventView::Count(*count),
            Event::Messages(messages) => EventView::Messages(views(messages@)),
            Event::RoomFailed(error) => EventView::RoomFailed(error@),
        }
    }
}

/// What a flow hands out while it runs.
#[derive(Clone, Debug, PartialEq, Eq)]
pub enum Output {
    /// A line for the log.
    Log { kind: LogMessageType, message: String },
    /// A plain-text message to the chat room of the flow.
    Plain(String),
    /// A marked-up message to the chat room of the flow.
    Html(String),
    /// Show or hide the typing notice in the chat room of the flow.
    Typing(bool),
    /// A message for the queue towards the chat rooms.
    Inbound(NetChatBridgeMessage),
    /// A message for the queue towards the room service.
    Outbound(MatrixBridgeMessage),
    /// Mark the chat message of the flow as read.
    ReadReceipt,
}

pub enum OutputView {
    Log { kind: LogMessageType, message: Seq<char> },
    Plain(Seq<char>),
    Html(Seq<char>),
    Typing(bool),
    Inbound(InboundBridgeMessage),
    Outbound(OutboundBridgeMessage),
    ReadReceipt,
}

impl View for Output {
    type V = OutputView;

    open spec fn view(&self) -> OutputView {
        match self {
            Output::Log { kind, message } => OutputView::Log { kind: *kind, message: message@ },
            Output::Plain(content) => OutputView::Plain(content@),
            Output::Html(content) => OutputView::Html(content@),
            Output::Typing(on) => OutputView::Typing(*on),
            Output::Inbound(message) => OutputView::Inbound(message@),
            Output::Outbound(message) => OutputView::Outbound(message@),
            Output::ReadReceipt => OutputView::ReadReceipt,
        }
    }
}

/// The views of `outputs`, in order.
pub open spec fn output_views(outputs: Seq<Output>) -> Seq<OutputView> {
    Seq::new(outputs.len(), |i: int| outputs[i]@)
}

/// The view of an optional request.
pub open spec fn request_view(request: Option<Request>) -> Option<RequestView> {
    match request {
        Some(request) => Some(request@),
        None => None,
    }
}

/// One move of a flow: what it hands out now, and the outside work it
/// waits for next. A flow that waits for nothing has ended.
#[derive(Clone, Debug, PartialEq, Eq)]
pub struct Step {
    pub outputs: Vec<Output>,
    pub request: Option<Request>,
}

pub struct StepView {
    pub outputs: Seq<OutputView>,
    pub request: Option<RequestView>,
}

impl View for Step {
    type V = StepView;

    open spec fn view(&self) -> StepView {
        StepView { outputs: output_views(self.outputs@), request: request_view(self.request) }
    }
}

impl StepView {
    /// The step that hands out `outputs` and ends the flow.
    pub open spec fn end(outputs: Seq<OutputView>) -> StepView {
        StepView { outputs, request: None }
    }

    /// The step that hands out `outputs` and waits for `request`.
    pub open spec fn ask(outputs: Seq<OutputView>, request: RequestView) -> StepView {
        StepView { outputs, request: Some(request) }
    }
}

impl Step {
    /// The step that hands out `outputs` and ends the flow.
    pub fn end(outputs: Vec<Output>) -> (step: Step)
        ensures
            step@ == StepView::end(output_views(outputs@)),
    {
        Step { outputs, request: None }
    }

    /// The step that hands out `outputs` and waits for `request`.
    pub fn ask(outputs: Vec<Output>, request: Request) -> (step: Step)
        ensures
            step@ == StepView::ask(output_views(outputs@), request@),
    {
        Step { outputs, request: Some(request) }
    }
}

/// No outputs.
pub fn nothing() -> (outputs: Vec<Output>)
    ensures
        output_views(outputs@) == Seq::<OutputView>::empty(),
{
    let outputs: Vec<Output> = Vec::new();
    assert(output_views(outputs@) =~= Seq::<OutputView>::empty());
    outputs
}

/// The one output `output`.
pub fn one(output: Output) -> (outputs: Vec<Output>)
    ensures
        output_views(outputs@) == seq![output@],
{
    let mut outputs: Vec<Output> = Vec::new();
    outputs.push(output);
    assert(output_views(outputs@) =~= seq![output@]);
    outputs
}

/// A line of kind `Error` for the log.
pub fn log_error(message: &str) -> (output: Output)
    ensures
        output@ == (OutputView::Log { kind: LogMessageType::Error, message: message@ }),
{
    Output::Log { kind: LogMessageType::Error, message: String::from_str(message) }
}

} // verus!

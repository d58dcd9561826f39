//! The handling of a message of a chat room: a command runs, any other
//! text is forwarded to the room service.

use crate::commands::{self, CommandInput, CommandInputView, CommandRun, CommandRunView};
use crate::exchange::{nothing, Event, EventView, Step, StepView};
use crate::forward::{ForwardRun, ForwardRunView};
use crate::text::{skip, starts_with};
use crate::tokenizer::{parse_command, tokens_of};
use vstd::prelude::*;

verus! {

/// A message of a chat room, as far as the bridge looks at it.
#[derive(Clone, Debug, PartialEq, Eq)]
pub struct RoomMessage {
    /// The chat room.
    pub room_id: String,
    /// The user who wrote the message.
    pub sender: String,
    /// The text of the message.
    pub body: String,
    /// Whether the bridge wrote the message itself.
    pub own: bool,
    /// Whether the bridge is a member of the chat room.
    pub joined: bool,
    /// Whether the message is a text message.
    pub text: bool,
}

pub struct RoomMessageView {
    pub room_id: Seq<char>,
    pub sender: Seq<char>,
    pub body: Seq<char>,
    pub own: bool,
    pub joined: bool,
    pub text: bool,
}

impl View for RoomMessage {
    type V = RoomMessageView;

    open spec fn view(&self) -> RoomMessageView {
        RoomMessageView {
            room_id: self.room_id@,
            sender: self.sender@,
            body: self.body@,
            own: self.own,
            joined: self.joined,
            text: self.text,
        }
    }
}

/// What a message of a chat room set going.
#[derive(Clone, Debug, PartialEq, Eq)]
pub enum Flow {
    /// Nothing.
    Idle,
    /// A command.
    Command(CommandRun),
    /// The forwarding of the message to the room service.
    Forward(ForwardRun),
}

pub enum FlowView {
    Idle,
    Command(CommandRunView),
    Forward(ForwardRunView),
}

impl View for Flow {
    type V = FlowView;

    open spec fn view(&self) -> FlowView {
        match self {
            Flow::Idle => FlowView::Idle,
            Flow::Command(run) => FlowView::Command(run@),
            Flow::Forward(run) => FlowView::Forward(run@),
        }
    }
}

/// The text of a command: the message without its first character.
pub open spec fn command_text(body: Seq<char>) -> Seq<char> {
    if body.len() >= 1 {
        body.skip(1)
    } else {
        body
    }
}

/// What a message sets going.
///
/// The bridge's own messages, messages of rooms it is not in, and messages
/// that are no text set nothing going. A text that begins with the command
/// prefix is a command: its first token is the command's name, the others
/// are its arguments, and a text without a token is no command at all. Any
/// other text is forwarded.
pub open spec fn routed(message: RoomMessageView, prefix: Seq<char>) -> (FlowView, StepView) {
    if message.own || !message.joined || !message.text {
        (FlowView::Idle, StepView::end(Seq::empty()))
    } else if prefix.is_prefix_of(message.body) {
        let tokens = tokens_of(command_text(message.body));
        if tokens.len() == 0 {
            (FlowView::Idle, StepView::end(Seq::empty()))
        } else {
            let moved = commands::started(
                tokens[0],
                CommandInputView {
                    room_id: message.room_id,
                    sender: message.sender,
                    arguments: tokens.skip(1),
                },
            );
            (FlowView::Command(moved.0), moved.1)
        }
    } else {
        let moved = ForwardRunView::started(message.room_id, message.sender, message.body);
        (FlowView::Forward(moved.0), moved.1)
    }
}

impl FlowView {
    /// The move of the flow on `event`.
    pub open spec fn advance(self, event: EventView) -> (FlowView, StepView) {
        match self {
            FlowView::Idle => (FlowView::Idle, StepView::end(Seq::empty())),
            FlowView::Command(run) => {
                let moved = run.advance(event);
                (FlowView::Command(moved.0), moved.1)
            },
            FlowView::Forward(run) => {
                let moved = run.advance(event);
                (FlowView::Forward(moved.0), moved.1)
            },
        }
    }
}

/// Handles a message of a chat room; `command_prefix` is what a command
/// begins with.
pub fn on_room_message(message: RoomMessage, command_prefix: &str) -> (moved: (Flow, Step))
    ensures
        (moved.0@, moved.1@) == routed(message@, command_prefix@),
{
    if message.own || !message.joined || !message.text {
        return (Flow::Idle, Step::end(nothing()));
    }
    if starts_with(message.body.as_str(), command_prefix) {
        let text = skip(message.body.as_str(), 1);
        assert(text@ == command_text(message.body@)) by {
            if message.body@.len() == 0 {
                assert(text@ =~= message.body@);
            }
        }
        match parse_command(text.as_str()) {
            None => (Flow::Idle, Step::end(nothing())),
            Some(line) => {
                let input = CommandInput {
                    room_id: message.room_id,
                    sender: message.sender,
                    arguments: line.arguments,
                };
                let (run, step) = commands::start(line.name.as_str(), &input);
                (Flow::Command(run), step)
            },
        }
    } else {
        let (run, step) = ForwardRun::start(message.room_id, message.sender, message.body);
        (Flow::Forward(run), step)
    }
}

impl Flow {
    /// Moves the flow on `event`, which answers the request of its last
    /// step.
    pub fn advance(self, event: Event) -> (moved: (Flow, Step))
        ensures
            (moved.0@, moved.1@) == self@.advance(event@),
    {
        match self {
            Flow::Idle => (Flow::Idle, Step::end(nothing())),
            Flow::Command(run) => {
                let (run, step) = run.advance(event);
                (Flow::Command(run), step)
            },
            Flow::Forward(run) => {
                let (run, step) = run.advance(event);
                (Flow::Forward(run), step)
            },
        }
    }
}

} // verus!

//! The two directions of forwarding: what a chat message becomes on its
//! way to the room service, and where a message of the room service goes.

use crate::commands::{error_line, unexpected_words};
use crate::exchange::{
    log_error, nothing, one, output_views, Event, EventView, Output, OutputView, Request,
    RequestView, Step, StepView, Stored, StoredView,
};
use crate::keys::{bridge_key, bridge_key_of, username_key, username_key_of};
use crate::netchat::{send_address, send_failure, send_message, send_message_url, Reply, ReplyView};
use crate::text::same;
use crate::{
    BridgeMapping, BridgedRoomData, MatrixBridgeMessage, NetChatBridgeMessage,
    OutboundBridgeMessage,
};
use vstd::prelude::*;

verus! {

/// Where the forwarding of a chat message stands.
#[derive(Clone, Debug, PartialEq, Eq)]
pub enum ForwardStage {
    /// It waits for the mapping of the chat room.
    Mapping,
    /// It waits for the name that the sender chose.
    Name { data: BridgedRoomData },
    /// It waits for the sender's display name.
    DisplayName { data: BridgedRoomData },
    Finished,
}

pub enum ForwardStageView {
    Mapping,
    Name { data: BridgeMapping },
    DisplayName { data: BridgeMapping },
    Finished,
}

impl View for ForwardStage {
    type V = ForwardStageView;

    open spec fn view(&self) -> ForwardStageView {
        match self {
            ForwardStage::Mapping => ForwardStageView::Mapping,
            ForwardStage::Name { data } => ForwardStageView::Name { data: data@ },
            ForwardStage::DisplayName { data } => ForwardStageView::DisplayName { data: data@ },
            ForwardStage::Finished => ForwardStageView::Finished,
        }
    }
}

/// The forwarding of one chat message to the room service.
#[derive(Clone, Debug, PartialEq, Eq)]
pub struct ForwardRun {
    /// The chat room of the message.
    pub room_id: String,
    /// The user who wrote it.
    pub sender: String,
    /// Its text.
    pub body: String,
    pub stage: ForwardStage,
}

pub struct ForwardRunView {
    pub room_id: Seq<char>,
    pub sender: Seq<char>,
    pub body: Seq<char>,
    pub stage: ForwardStageView,
}

impl View for ForwardRun {
    type V = ForwardRunView;

    open spec fn view(&self) -> ForwardRunView {
        ForwardRunView {
            room_id: self.room_id@,
            sender: self.sender@,
            body: self.body@,
            stage: self.stage@,
        }
    }
}

/// The name under which a message goes out: the name that the sender
/// chose, else the sender's display name, else the sender's identifier.
pub open spec fn sender_name(
    chosen: Option<Seq<char>>,
    display_name: Option<Seq<char>>,
    sender: Seq<char>,
) -> Seq<char> {
    match chosen {
        Some(name) => name,
        None => match display_name {
            Some(name) => name,
            None => sender,
        },
    }
}

impl ForwardRunView {
    /// How many pieces of outside work the forwarding may still ask for,
    /// counting the one it waits on.
    pub open spec fn steps_left(self) -> nat {
        match self.stage {
            ForwardStageView::Mapping => 3,
            ForwardStageView::Name { .. } => 2,
            ForwardStageView::DisplayName { .. } => 1,
            ForwardStageView::Finished => 0,
        }
    }

    /// The forwarding ends and hands out `outputs`.
    pub open spec fn end(self, outputs: Seq<OutputView>) -> (ForwardRunView, StepView) {
        (ForwardRunView { stage: ForwardStageView::Finished, ..self }, StepView::end(outputs))
    }

    /// The forwarding hands out `outputs` and waits on `request` at `stage`.
    pub open spec fn wait(
        self,
        stage: ForwardStageView,
        outputs: Seq<OutputView>,
        request: RequestView,
    ) -> (ForwardRunView, StepView) {
        (ForwardRunView { stage, ..self }, StepView::ask(outputs, request))
    }

    /// The message goes out under `name`, after `before`: it joins the
    /// queue towards the room service and the chat message is marked as
    /// read, which ends the forwarding. The store is asked for nothing: the
    /// mapping and its cursor stay as they are.
    pub open spec fn send(self, data: BridgeMapping, name: Seq<char>, before: Seq<OutputView>) -> (
        ForwardRunView,
        StepView,
    ) {
        self.end(
            before.push(
                OutputView::Outbound(
                    OutboundBridgeMessage {
                        netchat_room_name: data.room_name,
                        netchat_room_password: data.room_password,
                        netchat_username: name,
                        netchat_message: self.body,
                    },
                ),
            ).push(OutputView::ReadReceipt),
        )
    }

    /// The first move: the forwarding asks for the mapping of the chat
    /// room.
    pub open spec fn started(room_id: Seq<char>, sender: Seq<char>, body: Seq<char>) -> (
        ForwardRunView,
        StepView,
    ) {
        (ForwardRunView { room_id, sender, body, stage: ForwardStageView::Finished }).wait(
            ForwardStageView::Mapping,
            Seq::empty(),
            RequestView::LoadMapping { key: bridge_key(room_id) },
        )
    }

    /// The move on `event`.
    ///
    /// A chat room without a mapping forwards nothing. With one, the
    /// message goes out under the sender's name: the one the sender chose
    /// for this chat room, else the display name, else the identifier. A
    /// store or a lookup that fails on the way to the name is logged and
    /// the next source is taken. The forwarding reads the store and never
    /// writes to it.
    pub open spec fn advance(self, event: EventView) -> (ForwardRunView, StepView) {
        match self.stage {
            ForwardStageView::Mapping => match event {
                EventView::Mapping(StoredView::Present(data)) => self.wait(
                    ForwardStageView::Name { data },
                    Seq::empty(),
                    RequestView::LoadName { key: username_key(self.room_id, self.sender) },
                ),
                EventView::Mapping(StoredView::Absent) => self.end(Seq::empty()),
                EventView::Mapping(StoredView::Corrupt(error)) => self.end(seq![error_line(error)]),
                EventView::StoreFailed(error) => self.end(seq![error_line(error)]),
                _ => self.end(seq![error_line(unexpected_words())]),
            },
            ForwardStageView::Name { data } => match event {
                EventView::Name(Some(name)) => self.send(data, name, Seq::empty()),
                EventView::Name(None) => self.wait(
                    ForwardStageView::DisplayName { data },
                    Seq::empty(),
                    RequestView::DisplayName { room_id: self.room_id, user_id: self.sender },
                ),
                EventView::StoreFailed(error) => self.wait(
                    ForwardStageView::DisplayName { data },
                    seq![error_line(error)],
                    RequestView::DisplayName { room_id: self.room_id, user_id: self.sender },
                ),
                _ => self.end(seq![error_line(unexpected_words())]),
            },
            ForwardStageView::DisplayName { data } => match event {
                EventView::DisplayName(Some(name)) => self.send(data, name, Seq::empty()),
                EventView::DisplayName(None) => self.send(data, self.sender, Seq::empty()),
                EventView::LookupFailed(error) => self.send(
                    data,
                    self.sender,
                    seq![error_line(error)],
                ),
                _ => self.end(seq![error_line(unexpected_words())]),
            },
            ForwardStageView::Finished => self.end(Seq::empty()),
        }
    }
}

fn unexpected() -> (outputs: Vec<Output>)
    ensures
        output_views(outputs@) == seq![error_line(unexpected_words())],
{
    one(log_error("the event does not answer the request"))
}

impl ForwardRun {
    fn end(self, outputs: Vec<Output>) -> (moved: (ForwardRun, Step))
        ensures
            (moved.0@, moved.1@) == self@.end(output_views(outputs@)),
    {
        (
            ForwardRun {
                room_id: self.room_id,
                sender: self.sender,
                body: self.body,
                stage: ForwardStage::Finished,
            },
            Step::end(outputs),
        )
    }

    fn wait(self, stage: ForwardStage, outputs: Vec<Output>, request: Request) -> (moved: (
        ForwardRun,
        Step,
    ))
        ensures
            (moved.0@, moved.1@) == self@.wait(stage@, output_views(outputs@), request@),
    {
        (
            ForwardRun { room_id: self.room_id, sender: self.sender, body: self.body, stage },
            Step::ask(outputs, request),
        )
    }

    fn send(self, data: BridgedRoomData, name: String, before: Vec<Output>) -> (moved: (
        ForwardRun,
        Step,
    ))
        ensures
            (moved.0@, moved.1@) == self@.send(data@, name@, output_views(before@)),
    {
        let message = MatrixBridgeMessage {
            netchat_room_name: data.room_name,
            netchat_room_password: data.room_password,
            netchat_username: name,
            netchat_message: self.body.clone(),
        };
        let mut outputs = before;
        let ghost first = output_views(outputs@);
        outputs.push(Output::Outbound(message));
        outputs.push(Output::ReadReceipt);
        assert(output_views(outputs@) =~= first.push(OutputView::Outbound(message@)).push(
            OutputView::ReadReceipt,
        ));
        self.end(outputs)
    }

    /// Starts the forwarding of the message `body` that `sender` wrote in
    /// the chat room `room_id`.
    pub fn start(room_id: String, sender: String, body: String) -> (moved: (ForwardRun, Step))
        ensures
            (moved.0@, moved.1@) == ForwardRunView::started(room_id@, sender@, body@),
    {
        let key = bridge_key_of(room_id.as_str());
        let run = ForwardRun { room_id, sender, body, stage: ForwardStage::Finished };
        run.wait(ForwardStage::Mapping, nothing(), Request::LoadMapping { key })
    }

    /// Moves the forwarding on `event`, which answers the request of its
    /// last step.
    pub fn advance(self, event: Event) -> (moved: (ForwardRun, Step))
        ensures
            (moved.0@, moved.1@) == self@.advance(event@),
    {
        let ForwardRun { room_id, sender, body, stage } = self;
        let run = ForwardRun { room_id, sender, body, stage: ForwardStage::Finished };
        match stage {
            ForwardStage::Mapping => match event {
                Event::Mapping(Stored::Present(data)) => {
                    let key = username_key_of(run.room_id.as_str(), run.sender.as_str());
                    run.wait(ForwardStage::Name { data }, nothing(), Request::LoadName { key })
                },
                Event::Mapping(Stored::Absent) => run.end(nothing()),
                Event::Mapping(Stored::Corrupt(error)) => run.end(one(log_error(error.as_str()))),
                Event::StoreFailed(error) => run.end(one(log_error(error.as_str()))),
                _ => run.end(unexpected()),
            },
            ForwardStage::Name { data } => match event {
                Event::Name(Some(name)) => run.send(data, name, nothing()),
                Event::Name(None) => {
                    let request = Request::DisplayName {
                        room_id: run.room_id.clone(),
                        user_id: run.sender.clone(),
                    };
                    run.wait(ForwardStage::DisplayName { data }, nothing(), request)
                },
                Event::StoreFailed(error) => {
                    let request = Request::DisplayName {
                        room_id: run.room_id.clone(),
                        user_id: run.sender.clone(),
                    };
                    run.wait(
                        ForwardStage::DisplayName { data },
                        one(log_error(error.as_str())),
                        request,
                    )
                },
                _ => run.end(unexpected()),
            },
            ForwardStage::DisplayName { data } => match event {
                Event::DisplayName(Some(name)) => run.send(data, name, nothing()),
                Event::DisplayName(None) => {
                    let name = run.sender.clone();
                    run.send(data, name, nothing())
                },
                Event::LookupFailed(error) => {
                    let name = run.sender.clone();
                    run.send(data, name, one(log_error(error.as_str())))
                },
                _ => run.end(unexpected()),
            },
            ForwardStage::Finished => run.end(nothing()),
        }
    }
}

/// Whether `index` is the place of the first of `rooms` that is `room_id`.
pub open spec fn first_place(rooms: Seq<Seq<char>>, room_id: Seq<char>, index: int) -> bool {
    &&& 0 <= index < rooms.len()
    &&& rooms[index] == room_id
    &&& forall|earlier: int| 0 <= earlier < index ==> rooms[earlier] != room_id
}

/// Where a message of the room service goes: the place, among the chat
/// rooms that the bridge has joined, of the room that the message names.
/// `None` where the bridge is in no such room; the message is then dropped.
pub fn bridge_netchat_messages(joined_rooms: &Vec<String>, message: &NetChatBridgeMessage) -> (place:
    Option<usize>)
    ensures
        match place {
            Some(index) => first_place(
                crate::text::views(joined_rooms@),
                message.matrix_room_id@,
                index as int,
            ),
            None => forall|index: int|
                0 <= index < joined_rooms.len() ==> (#[trigger] joined_rooms[index])@
                    != message.matrix_room_id@,
        },
{
    let mut index: usize = 0;
    while index < joined_rooms.len()
        invariant
            index <= joined_rooms.len(),
            forall|earlier: int|
                0 <= earlier < index ==> (#[trigger] joined_rooms[earlier])@
                    != message.matrix_room_id@,
        decreases joined_rooms.len() - index,
    {
        if same(joined_rooms[index].as_str(), message.matrix_room_id.as_str()) {
            return Some(index);
        }
        index += 1;
    }
    None
}

/// The address that delivers `message` to the room service: that of the
/// room's send operation, with the sender's name and the text escaped.
pub fn bridge_matrix_messages(message: &MatrixBridgeMessage) -> (url: String)
    ensures
        url@ == send_address(
            message.netchat_room_name@,
            message.netchat_room_password@,
            message.netchat_username@,
            message.netchat_message@,
        ),
{
    send_message_url(
        message.netchat_room_name.as_str(),
        message.netchat_room_password.as_str(),
        message.netchat_username.as_str(),
        message.netchat_message.as_str(),
    )
}

/// What a delivery that came back as `reply` leaves behind: a line for the
/// log where it failed, else nothing. The message is not sent again.
pub open spec fn delivery_outputs(reply: ReplyView) -> Seq<OutputView> {
    match send_failure(reply) {
        Some(failure) => seq![error_line(failure.message)],
        None => Seq::empty(),
    }
}

/// Reads the reply to a delivery.
pub fn delivered(reply: Reply) -> (outputs: Vec<Output>)
    ensures
        output_views(outputs@) == delivery_outputs(reply@),
{
    match send_message(reply) {
        Ok(_) => nothing(),
        Err(failure) => one(log_error(failure.message.as_str())),
    }
}

} // verus!

//! The poll-diff engine: finds the new messages of a bridged room by
//! holding the room's message counter against the cursor of the mapping.
//!
//! One flow handles one entry of the store for one cycle. A failure ends
//! the flow for this cycle only, and the cursor stays where it was.

use crate::commands::{error_line, unexpected_words};
use crate::exchange::{
    log_error, nothing, one, output_views, Event, EventView, LogMessageType, Output, OutputView,
    Request, RequestView, Step, StepView, Stored, StoredView,
};
use crate::keys::{bridged_room, is_bridge_key, room_id_of, room_of_key};
use crate::text::{chars_of, join, string_of, views};
use crate::{BridgeMapping, BridgedRoomData, InboundBridgeMessage, NetChatBridgeMessage};
use vstd::prelude::*;

verus! {

/// The length of the time stamp that a message of the room service begins
/// with.
pub const STAMP_LENGTH: usize = 21;

/// A message of the room service as marked-up text: its time stamp, the
/// first `STAMP_LENGTH` characters, stands in bold. A message shorter than
/// a time stamp stands in bold as a whole.
pub open spec fn formatted(message: Seq<char>) -> Seq<char> {
    let stamp = if message.len() < STAMP_LENGTH {
        message.len() as int
    } else {
        STAMP_LENGTH as int
    };
    "<b>"@ + message.take(stamp) + "</b>"@ + message.skip(stamp)
}

/// The messages `messages`, formatted and addressed to the chat room
/// `room_id`, in their order.
pub open spec fn inbound(messages: Seq<Seq<char>>, room_id: Seq<char>) -> Seq<OutputView> {
    Seq::new(
        messages.len(),
        |i: int|
            OutputView::Inbound(
                InboundBridgeMessage { content: formatted(messages[i]), matrix_room_id: room_id },
            ),
    )
}

/// How many of `outputs` are messages for the queue towards the chat
/// rooms.
pub open spec fn forwarded(outputs: Seq<OutputView>) -> nat
    decreases outputs.len(),
{
    if outputs.len() == 0 {
        0
    } else if outputs.last() is Inbound {
        forwarded(outputs.drop_last()) + 1
    } else {
        forwarded(outputs.drop_last())
    }
}

/// Every message that is enqueued counts as forwarded.
pub proof fn lemma_inbound_forwarded(messages: Seq<Seq<char>>, room_id: Seq<char>)
    ensures
        forwarded(inbound(messages, room_id)) == messages.len(),
    decreases messages.len(),
{
    if messages.len() > 0 {
        lemma_inbound_forwarded(messages.drop_last(), room_id);
        assert(inbound(messages, room_id).drop_last() =~= inbound(messages.drop_last(), room_id));
    }
}

/// The words of the log for a counter that fell below the cursor.
pub open spec fn shrink_words(room_id: Seq<char>) -> Seq<char> {
    "the message counter fell below the cursor, which now follows it, for "@ + room_id
}

/// The words of the log for a list of messages that is shorter than the
/// counter said.
pub open spec fn short_list_words() -> Seq<char> {
    "the room service gave fewer messages than it counted"@
}

/// Where the poll of one entry stands.
#[derive(Clone, Debug, PartialEq, Eq)]
pub enum PollStage {
    /// It waits for the room's message counter.
    Count { data: BridgedRoomData },
    /// It waits for the room's messages; the counter was `fetched`.
    Messages { data: BridgedRoomData, fetched: usize },
    /// It waits for the store to take the new cursor.
    Save,
    Finished,
}

pub enum PollStageView {
    Count { data: BridgeMapping },
    Messages { data: BridgeMapping, fetched: usize },
    Save,
    Finished,
}

impl View for PollStage {
    type V = PollStageView;

    open spec fn view(&self) -> PollStageView {
        match self {
            PollStage::Count { data } => PollStageView::Count { data: data@ },
            PollStage::Messages { data, fetched } => PollStageView::Messages {
                data: data@,
                fetched: *fetched,
            },
            PollStage::Save => PollStageView::Save,
            PollStage::Finished => PollStageView::Finished,
        }
    }
}

/// The poll of one entry of the store.
#[derive(Clone, Debug, PartialEq, Eq)]
pub struct PollRun {
    /// The key of the entry.
    pub key: String,
    pub stage: PollStage,
}

pub struct PollRunView {
    pub key: Seq<char>,
    pub stage: PollStageView,
}

impl View for PollRun {
    type V = PollRunView;

    open spec fn view(&self) -> PollRunView {
        PollRunView { key: self.key@, stage: self.stage@ }
    }
}

impl PollRunView {
    /// How many pieces of outside work the poll may still ask for, counting
    /// the one it waits on.
    pub open spec fn steps_left(self) -> nat {
        match self.stage {
            PollStageView::Count { .. } => 3,
            PollStageView::Messages { .. } => 2,
            PollStageView::Save => 1,
            PollStageView::Finished => 0,
        }
    }

    /// The poll ends and hands out `outputs`.
    pub open spec fn end(self, outputs: Seq<OutputView>) -> (PollRunView, StepView) {
        (PollRunView { stage: PollStageView::Finished, ..self }, StepView::end(outputs))
    }

    /// The poll hands out `outputs` and waits on `request` at `stage`.
    pub open spec fn wait(
        self,
        stage: PollStageView,
        outputs: Seq<OutputView>,
        request: RequestView,
    ) -> (PollRunView, StepView) {
        (PollRunView { stage, ..self }, StepView::ask(outputs, request))
    }

    /// The poll hands out `outputs` and stores `data` with the cursor
    /// `cursor`.
    pub open spec fn save(self, data: BridgeMapping, cursor: usize, outputs: Seq<OutputView>) -> (
        PollRunView,
        StepView,
    ) {
        self.wait(
            PollStageView::Save,
            outputs,
            RequestView::SaveMapping {
                key: self.key,
                data: BridgeMapping { message_count: cursor as nat, ..data },
            },
        )
    }

    /// The first move on the entry `key`, under which the store holds
    /// `stored`: an entry that is a mapping asks for the counter of its
    /// room. An entry whose key is not that of a mapping is passed over,
    /// and one that holds no mapping is logged and passed over.
    pub open spec fn started(key: Seq<char>, stored: StoredView) -> (PollRunView, StepView) {
        let run = PollRunView { key, stage: PollStageView::Finished };
        if !is_bridge_key(key) {
            run.end(Seq::empty())
        } else {
            match stored {
                StoredView::Present(data) => run.wait(
                    PollStageView::Count { data },
                    Seq::empty(),
                    RequestView::MessageCount {
                        room_name: data.room_name,
                        room_password: data.room_password,
                    },
                ),
                StoredView::Corrupt(error) => run.end(seq![error_line(error)]),
                StoredView::Absent => run.end(Seq::empty()),
            }
        }
    }

    /// The move on `event`.
    ///
    /// A counter below the cursor means that the room was reset: the
    /// cursor takes the counter's value, which is logged, and nothing is
    /// forwarded. A counter above the cursor asks for the room's messages;
    /// those from the cursor up to the counter join the queue towards the
    /// chat room, in their order, and then the cursor takes the counter's
    /// value. A counter equal to the cursor ends the poll.
    pub open spec fn advance(self, event: EventView) -> (PollRunView, StepView) {
        match self.stage {
            PollStageView::Count { data } => match event {
                EventView::Count(fetched) => if fetched < data.message_count {
                    self.save(
                        data,
                        fetched,
                        seq![
                            OutputView::Log {
                                kind: LogMessageType::Warning,
                                message: shrink_words(room_of_key(self.key)),
                            },
                        ],
                    )
                } else if fetched > data.message_count {
                    self.wait(
                        PollStageView::Messages { data, fetched },
                        Seq::empty(),
                        RequestView::Messages {
                            room_name: data.room_name,
                            room_password: data.room_password,
                        },
                    )
                } else {
                    self.end(Seq::empty())
                },
                EventView::RoomFailed(error) => self.end(seq![error_line(error.message)]),
                _ => self.end(seq![error_line(unexpected_words())]),
            },
            PollStageView::Messages { data, fetched } => match event {
                EventView::Messages(messages) => if data.message_count <= fetched
                    <= messages.len() {
                    self.save(
                        data,
                        fetched,
                        inbound(
                            messages.subrange(data.message_count as int, fetched as int),
                            room_of_key(self.key),
                        ),
                    )
                } else {
                    self.end(seq![error_line(short_list_words())])
                },
                EventView::RoomFailed(error) => self.end(seq![error_line(error.message)]),
                _ => self.end(seq![error_line(unexpected_words())]),
            },
            PollStageView::Save => match event {
                EventView::Written => self.end(Seq::empty()),
                EventView::StoreFailed(error) => self.end(seq![error_line(error)]),
                _ => self.end(seq![error_line(unexpected_words())]),
            },
            PollStageView::Finished => self.end(Seq::empty()),
        }
    }
}

/// A message of the room service as marked-up text.
pub fn format_message(message: &str) -> (content: String)
    ensures
        content@ == formatted(message@),
{
    let chars = chars_of(message);
    let stamp = if chars.len() < STAMP_LENGTH {
        chars.len()
    } else {
        STAMP_LENGTH
    };
    let head = string_of(&chars, 0, stamp);
    let tail = string_of(&chars, stamp, chars.len());
    let mut content = join("<b>", head.as_str());
    content.append("</b>");
    content.append(tail.as_str());
    content
}

/// The messages `messages[from..to]`, formatted and addressed to the chat
/// room `room_id`.
pub fn enqueue(messages: &Vec<String>, from: usize, to: usize, room_id: &str) -> (outputs: Vec<
    Output,
>)
    requires
        from <= to <= messages.len(),
    ensures
        output_views(outputs@) == inbound(
            views(messages@).subrange(from as int, to as int),
            room_id@,
        ),
{
    let mut outputs: Vec<Output> = Vec::new();
    let mut i: usize = from;
    let ghost wanted = inbound(views(messages@).subrange(from as int, to as int), room_id@);
    while i < to
        invariant
            from <= i <= to <= messages.len(),
            wanted == inbound(views(messages@).subrange(from as int, to as int), room_id@),
            outputs.len() == i - from,
            forall|k: int| 0 <= k < outputs.len() ==> (#[trigger] outputs[k])@ == wanted[k],
        decreases to - i,
    {
        let message = NetChatBridgeMessage {
            content: format_message(messages[i].as_str()),
            matrix_room_id: String::from_str(room_id),
        };
        assert(views(messages@).subrange(from as int, to as int)[i - from] == messages[i as int]@);
        outputs.push(Output::Inbound(message));
        i += 1;
    }
    assert(output_views(outputs@) =~= wanted);
    outputs
}

fn unexpected() -> (outputs: Vec<Output>)
    ensures
        output_views(outputs@) == seq![error_line(unexpected_words())],
{
    one(log_error("the event does not answer the request"))
}

impl PollRun {
    fn end(self, outputs: Vec<Output>) -> (moved: (PollRun, Step))
        ensures
            (moved.0@, moved.1@) == self@.end(output_views(outputs@)),
    {
        (PollRun { key: self.key, stage: PollStage::Finished }, Step::end(outputs))
    }

    fn wait(self, stage: PollStage, outputs: Vec<Output>, request: Request) -> (moved: (
        PollRun,
        Step,
    ))
        ensures
            (moved.0@, moved.1@) == self@.wait(stage@, output_views(outputs@), request@),
    {
        (PollRun { key: self.key, stage }, Step::ask(outputs, request))
    }

    fn save(self, data: BridgedRoomData, cursor: usize, outputs: Vec<Output>) -> (moved: (
        PollRun,
        Step,
    ))
        ensures
            (moved.0@, moved.1@) == self@.save(data@, cursor, output_views(outputs@)),
    {
        let request = Request::SaveMapping { key: self.key.clone(), data: data.with_count(cursor) };
        self.wait(PollStage::Save, outputs, request)
    }

    /// Starts the poll of the entry `key`, under which the store holds
    /// `stored`.
    pub fn start(key: String, stored: Stored) -> (moved: (PollRun, Step))
        ensures
            (moved.0@, moved.1@) == PollRunView::started(key@, stored@),
    {
        let is_mapping = bridged_room(key.as_str()).is_some();
        let run = PollRun { key, stage: PollStage::Finished };
        if !is_mapping {
            return run.end(nothing());
        }
        match stored {
            Stored::Present(data) => {
                let request = Request::MessageCount {
                    room_name: data.room_name.clone(),
                    room_password: data.room_password.clone(),
                };
                run.wait(PollStage::Count { data }, nothing(), request)
            },
            Stored::Corrupt(error) => run.end(one(log_error(error.as_str()))),
            Stored::Absent => run.end(nothing()),
        }
    }

    /// Moves the poll on `event`, which answers the request of its last
    /// step.
    pub fn advance(self, event: Event) -> (moved: (PollRun, Step))
        ensures
            (moved.0@, moved.1@) == self@.advance(event@),
    {
        let PollRun { key, stage } = self;
        let run = PollRun { key, stage: PollStage::Finished };
        match stage {
            PollStage::Count { data } => match event {
                Event::Count(fetched) => {
                    if fetched < data.message_count {
                        let room_id = room_id_of(run.key.as_str());
                        let warning = Output::Log {
                            kind: LogMessageType::Warning,
                            message: join(
                                "the message counter fell below the cursor, which now follows it, for ",
                                room_id.as_str(),
                            ),
                        };
                        run.save(data, fetched, one(warning))
                    } else if fetched > data.message_count {
                        let request = Request::Messages {
                            room_name: data.room_name.clone(),
                            room_password: data.room_password.clone(),
                        };
                        run.wait(PollStage::Messages { data, fetched }, nothing(), request)
                    } else {
                        run.end(nothing())
                    }
                },
                Event::RoomFailed(error) => run.end(one(log_error(error.message.as_str()))),
                _ => run.end(unexpected()),
            },
            PollStage::Messages { data, fetched } => match event {
                Event::Messages(messages) => {
                    if data.message_count <= fetched && fetched <= messages.len() {
                        let room_id = room_id_of(run.key.as_str());
                        let outputs = enqueue(
                            &messages,
                            data.message_count,
                            fetched,
                            room_id.as_str(),
                        );
                        run.save(data, fetched, outputs)
                    } else {
                        run.end(
                            one(log_error("the room service gave fewer messages than it counted")),
                        )
                    }
                },
                Event::RoomFailed(error) => run.end(one(log_error(error.message.as_str()))),
                _ => run.end(unexpected()),
            },
            PollStage::Save => match event {
                Event::Written => run.end(nothing()),
                Event::StoreFailed(error) => run.end(one(log_error(error.as_str()))),
                _ => run.end(unexpected()),
            },
            PollStage::Finished => run.end(nothing()),
        }
    }
}

} // verus!

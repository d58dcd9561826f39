//! A model of what surrounds the bridge: a store that keeps what it is
//! given, a chat platform and a room service that answer every question.
//! With it a flow can be followed from its first request to its end, and
//! two flows can be followed one after the other.

use crate::commands::{bridge, username, CommandInputView, CommandRunView};
use crate::exchange::{EventView, OutputView, RequestView, StepView, StoredView};
use crate::forward::ForwardRunView;
use crate::keys::bridge_key;
use crate::poll::PollRunView;
use crate::BridgeMapping;
use vstd::prelude::*;

verus! {

/// How a mapping is written as a string of the store and read again.
pub struct Codec {
    /// The string that holds a mapping.
    pub encode: spec_fn(BridgeMapping) -> Seq<char>,
    /// The mapping that a string holds, or why it holds none.
    pub decode: spec_fn(Seq<char>) -> Result<BridgeMapping, Seq<char>>,
}

impl Codec {
    /// Whether every mapping is read as it was written.
    pub open spec fn faithful(self) -> bool {
        forall|mapping: BridgeMapping| #[trigger]
            (self.decode)((self.encode)(mapping)) == Ok::<BridgeMapping, Seq<char>>(mapping)
    }
}

/// A room of the room service.
pub struct RoomModel {
    pub initializing: bool,
    pub password: Seq<char>,
    /// What the room gives as its message counter.
    pub counter: usize,
    /// What the room gives as its messages, oldest first.
    pub messages: Seq<Seq<char>>,
}

/// What surrounds the bridge.
pub struct World {
    /// What the store holds: strings under strings.
    pub store: Map<Seq<char>, Seq<char>>,
    pub codec: Codec,
    /// The power level of a user in a chat room; `None` for a user who is
    /// no member.
    pub power_level: spec_fn(Seq<char>, Seq<char>) -> Option<i64>,
    /// The display name of a user in a chat room, if the user has one.
    pub display_name: spec_fn(Seq<char>, Seq<char>) -> Option<Seq<char>>,
    /// The rooms of the room service, by name.
    pub rooms: spec_fn(Seq<char>) -> RoomModel,
}

impl World {
    /// What the store holds under `key`, read as a mapping.
    pub open spec fn stored(self, key: Seq<char>) -> StoredView {
        if !self.store.contains_key(key) {
            StoredView::Absent
        } else {
            match (self.codec.decode)(self.store[key]) {
                Ok(mapping) => StoredView::Present(mapping),
                Err(reason) => StoredView::Corrupt(reason),
            }
        }
    }

    /// The world with `value` stored under `key`.
    pub open spec fn with_entry(self, key: Seq<char>, value: Seq<char>) -> World {
        World { store: self.store.insert(key, value), ..self }
    }

    /// The world with nothing stored under `key`.
    pub open spec fn without_entry(self, key: Seq<char>) -> World {
        World { store: self.store.remove(key), ..self }
    }

    /// The world after the work that `request` asks for, and what that
    /// work gave. Nothing fails here.
    pub open spec fn answer(self, request: RequestView) -> (World, EventView) {
        match request {
            RequestView::PowerLevel { room_id, user_id } => (
                self,
                EventView::PowerLevel((self.power_level)(room_id, user_id)),
            ),
            RequestView::DisplayName { room_id, user_id } => (
                self,
                EventView::DisplayName((self.display_name)(room_id, user_id)),
            ),
            RequestView::LoadMapping { key } => (self, EventView::Mapping(self.stored(key))),
            RequestView::SaveMapping { key, data } => (
                self.with_entry(key, (self.codec.encode)(data)),
                EventView::Written,
            ),
            RequestView::LoadName { key } => (
                self,
                EventView::Name(
                    if self.store.contains_key(key) {
                        Some(self.store[key])
                    } else {
                        None
                    },
                ),
            ),
            RequestView::SaveName { key, name } => (self.with_entry(key, name), EventView::Written),
            RequestView::Remove { key } => (self.without_entry(key), EventView::Written),
            RequestView::Initializing { room_name, room_password } => (
                self,
                EventView::Flag((self.rooms)(room_name).initializing),
            ),
            RequestView::CheckPassword { room_name, room_password } => (
                self,
                EventView::Flag((self.rooms)(room_name).password == room_password),
            ),
            RequestView::MessageCount { room_name, room_password } => (
                self,
                EventView::Count((self.rooms)(room_name).counter),
            ),
            RequestView::Messages { room_name, room_password } => (
                self,
                EventView::Messages((self.rooms)(room_name).messages),
            ),
        }
    }

    /// A command followed from the step `step` for at most `fuel` requests:
    /// the world at its end, the command at its end, and all it handed
    /// out.
    pub open spec fn follow_command(
        self,
        run: CommandRunView,
        step: StepView,
        fuel: nat,
    ) -> (World, CommandRunView, Seq<OutputView>)
        decreases fuel,
    {
        if fuel == 0 || step.request is None {
            (self, run, step.outputs)
        } else {
            let answered = self.answer(step.request->0);
            let moved = run.advance(answered.1);
            let rest = answered.0.follow_command(moved.0, moved.1, (fuel - 1) as nat);
            (rest.0, rest.1, step.outputs + rest.2)
        }
    }

    /// A forwarding followed from the step `step` for at most `fuel`
    /// requests.
    pub open spec fn follow_forward(
        self,
        run: ForwardRunView,
        step: StepView,
        fuel: nat,
    ) -> (World, ForwardRunView, Seq<OutputView>)
        decreases fuel,
    {
        if fuel == 0 || step.request is None {
            (self, run, step.outputs)
        } else {
            let answered = self.answer(step.request->0);
            let moved = run.advance(answered.1);
            let rest = answered.0.follow_forward(moved.0, moved.1, (fuel - 1) as nat);
            (rest.0, rest.1, step.outputs + rest.2)
        }
    }

    /// A poll followed from the step `step` for at most `fuel` requests.
    pub open spec fn follow_poll(self, run: PollRunView, step: StepView, fuel: nat) -> (
        World,
        PollRunView,
        Seq<OutputView>,
    )
        decreases fuel,
    {
        if fuel == 0 || step.request is None {
            (self, run, step.outputs)
        } else {
            let answered = self.answer(step.request->0);
            let moved = run.advance(answered.1);
            let rest = answered.0.follow_poll(moved.0, moved.1, (fuel - 1) as nat);
            (rest.0, rest.1, step.outputs + rest.2)
        }
    }

    /// The command `bridge` with the arguments `arguments`, given by
    /// `user_id` in the chat room `room_id`, from its start to its end. No
    /// command asks for more than six pieces of work.
    pub open spec fn bridge(
        self,
        room_id: Seq<char>,
        user_id: Seq<char>,
        arguments: Seq<Seq<char>>,
    ) -> (World, CommandRunView, Seq<OutputView>) {
        let moved = bridge::started(CommandInputView { room_id, sender: user_id, arguments });
        self.follow_command(moved.0, moved.1, 6)
    }

    /// The command `username` with the arguments `arguments`, from its
    /// start to its end.
    pub open spec fn username(
        self,
        room_id: Seq<char>,
        user_id: Seq<char>,
        arguments: Seq<Seq<char>>,
    ) -> (World, CommandRunView, Seq<OutputView>) {
        let moved = username::started(CommandInputView { room_id, sender: user_id, arguments });
        self.follow_command(moved.0, moved.1, 6)
    }

    /// `bridge create` with the name and the password of a room.
    pub open spec fn create(
        self,
        room_id: Seq<char>,
        user_id: Seq<char>,
        room_name: Seq<char>,
        room_password: Seq<char>,
    ) -> (World, CommandRunView, Seq<OutputView>) {
        self.bridge(room_id, user_id, seq!["create"@, room_name, room_password])
    }

    /// `bridge destroy`.
    pub open spec fn destroy(self, room_id: Seq<char>, user_id: Seq<char>) -> (
        World,
        CommandRunView,
        Seq<OutputView>,
    ) {
        self.bridge(room_id, user_id, seq!["destroy"@])
    }

    /// `bridge status`.
    pub open spec fn status(self, room_id: Seq<char>, user_id: Seq<char>) -> (
        World,
        CommandRunView,
        Seq<OutputView>,
    ) {
        self.bridge(room_id, user_id, seq!["status"@])
    }

    /// The forwarding of the message `body` that `user_id` wrote in the
    /// chat room `room_id`, from its start to its end.
    pub open spec fn forward(self, room_id: Seq<char>, user_id: Seq<char>, body: Seq<char>) -> (
        World,
        ForwardRunView,
        Seq<OutputView>,
    ) {
        let moved = ForwardRunView::started(room_id, user_id, body);
        self.follow_forward(moved.0, moved.1, 6)
    }

    /// The poll of the entry `key` of the store, from its start to its
    /// end.
    pub open spec fn poll(self, key: Seq<char>) -> (World, PollRunView, Seq<OutputView>) {
        let moved = PollRunView::started(key, self.stored(key));
        self.follow_poll(moved.0, moved.1, 6)
    }

    /// The cursor of the mapping of the chat room `room_id`; `None` where
    /// the store holds no mapping for it.
    pub open spec fn cursor(self, room_id: Seq<char>) -> Option<nat> {
        match self.stored(bridge_key(room_id)) {
            StoredView::Present(mapping) => Some(mapping.message_count),
            _ => None,
        }
    }

    /// The world after one round for each of `rounds`: in every round the
    /// room that the chat room `room_id` is bridged to becomes what the
    /// round says, and the entry of the chat room is polled once.
    pub open spec fn after_rounds(self, room_id: Seq<char>, rounds: Seq<RoomModel>) -> World
        decreases rounds.len(),
    {
        if rounds.len() == 0 {
            self
        } else {
            self.after_rounds(room_id, rounds.drop_last()).round(room_id, rounds.last()).0
        }
    }

    /// One round: the room that the chat room `room_id` is bridged to
    /// becomes `room`, and the entry of the chat room is polled. The world
    /// after the round, and what the poll handed out.
    pub open spec fn round(self, room_id: Seq<char>, room: RoomModel) -> (World, Seq<OutputView>) {
        match self.stored(bridge_key(room_id)) {
            StoredView::Present(mapping) => {
                let polled = self.with_room(mapping.room_name, room).poll(bridge_key(room_id));
                (polled.0, polled.2)
            },
            _ => (self, Seq::empty()),
        }
    }

    /// The world with the room `room_name` of the room service as `room`.
    pub open spec fn with_room(self, room_name: Seq<char>, room: RoomModel) -> World {
        World {
            rooms: |name: Seq<char>|
                if name == room_name {
                    room
                } else {
                    (self.rooms)(name)
                },
            ..self
        }
    }
}

} // verus!

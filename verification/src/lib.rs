//! Verified core of a bridge between a chat room and a password-protected
//! room of an HTTP-polled message service.
//!
//! The library decides and never waits: every flow is a state machine that
//! names the one piece of outside work it needs next (a store access, a
//! request to the room service, a lookup on the chat platform) and is
//! advanced with what that work gave. The caller performs the work.

use vstd::prelude::*;

pub mod commands;
pub mod configuration;
pub mod events;
pub mod exchange;
pub mod forward;
pub mod keys;
pub mod language;
pub mod laws;
pub mod netchat;
pub mod permissions;
pub mod poll;
pub mod secrets;
pub mod supervisor;
pub mod text;
pub mod tokenizer;
pub mod utilities;
pub mod world;

verus! {

/// The mapping of one chat room: the room of the message service that it
/// is bridged to, that room's password, and the cursor, the number of that
/// room's messages that need no forwarding any more: those that were
/// forwarded into the chat room, and those that the room held when the
/// mapping was made. Only the poll moves the cursor.
#[derive(Clone, Debug, PartialEq, Eq)]
pub struct BridgedRoomData {
    pub room_name: String,
    pub room_password: String,
    pub message_count: usize,
}

/// A bridge mapping as a mathematical value.
pub struct BridgeMapping {
    pub room_name: Seq<char>,
    pub room_password: Seq<char>,
    pub message_count: nat,
}

impl View for BridgedRoomData {
    type V = BridgeMapping;

    open spec fn view(&self) -> BridgeMapping {
        BridgeMapping {
            room_name: self.room_name@,
            room_password: self.room_password@,
            message_count: self.message_count as nat,
        }
    }
}

impl BridgedRoomData {
    pub fn new(room_name: String, room_password: String, message_count: usize) -> (data: Self)
        ensures
            data.room_name == room_name,
            data.room_password == room_password,
            data.message_count == message_count,
    {
        BridgedRoomData { room_name, room_password, message_count }
    }

    /// A copy of the mapping with the cursor set to `message_count`.
    pub fn with_count(&self, message_count: usize) -> (data: Self)
        ensures
            data@ == (BridgeMapping { message_count: message_count as nat, ..self@ }),
    {
        BridgedRoomData {
            room_name: self.room_name.clone(),
            room_password: self.room_password.clone(),
            message_count,
        }
    }
}

/// A message of the room service on its way into a chat room.
#[derive(Clone, Debug, PartialEq, Eq)]
pub struct NetChatBridgeMessage {
    /// The message as marked-up text.
    pub content: String,
    /// The chat room it goes to.
    pub matrix_room_id: String,
}

/// A message on its way into a chat room, as a mathematical value.
pub struct InboundBridgeMessage {
    pub content: Seq<char>,
    pub matrix_room_id: Seq<char>,
}

impl View for NetChatBridgeMessage {
    type V = InboundBridgeMessage;

    open spec fn view(&self) -> InboundBridgeMessage {
        InboundBridgeMessage { content: self.content@, matrix_room_id: self.matrix_room_id@ }
    }
}

/// A message of a chat room on its way to the room service.
#[derive(Clone, Debug, PartialEq, Eq)]
pub struct MatrixBridgeMessage {
    pub netchat_room_name: String,
    pub netchat_room_password: String,
    /// The name the message is sent under.
    pub netchat_username: String,
    /// The message as plain text.
    pub netchat_message: String,
}

/// A message on its way to the room service, as a mathematical value.
pub struct OutboundBridgeMessage {
    pub netchat_room_name: Seq<char>,
    pub netchat_room_password: Seq<char>,
    pub netchat_username: Seq<char>,
    pub netchat_message: Seq<char>,
}

impl View for MatrixBridgeMessage {
    type V = OutboundBridgeMessage;

    open spec fn view(&self) -> OutboundBridgeMessage {
        OutboundBridgeMessage {
            netchat_room_name: self.netchat_room_name@,
            netchat_room_password: self.netchat_room_password@,
            netchat_username: self.netchat_username@,
            netchat_message: self.netchat_message@,
        }
    }
}

} // verus!

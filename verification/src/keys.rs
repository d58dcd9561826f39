//! The layout of the store's keys: one keyspace for the mappings of chat
//! rooms, one for the names that users chose.

use crate::text::{chars_of, join, matches_at, string_of};
use vstd::prelude::*;

verus! {

/// The key of the mapping of the chat room `room_id`.
pub open spec fn bridge_key(room_id: Seq<char>) -> Seq<char> {
    "bridge."@ + room_id
}

/// The key of the name that `user_id` chose in the chat room `room_id`.
pub open spec fn username_key(room_id: Seq<char>, user_id: Seq<char>) -> Seq<char> {
    "username."@ + room_id + "."@ + user_id
}

/// Whether `key` is the key of a mapping.
pub open spec fn is_bridge_key(key: Seq<char>) -> bool {
    "bridge."@.is_prefix_of(key)
}

/// The chat room whose mapping stands under `key`: what follows the
/// prefix of a mapping's key. A key shorter than the prefix names the room
/// with the empty identifier.
pub open spec fn room_of_key(key: Seq<char>) -> Seq<char> {
    if "bridge."@.len() <= key.len() {
        key.skip("bridge."@.len() as int)
    } else {
        Seq::empty()
    }
}

/// The key of a room's mapping names that room and no other.
pub proof fn lemma_bridge_key_names_room(room_id: Seq<char>)
    ensures
        is_bridge_key(bridge_key(room_id)),
        room_of_key(bridge_key(room_id)) == room_id,
{
    let prefix = "bridge."@;
    assert(bridge_key(room_id).subrange(0, prefix.len() as int) =~= prefix);
    assert(bridge_key(room_id).skip(prefix.len() as int) =~= room_id);
}

/// Two chat rooms with the same mapping key are one room.
pub proof fn lemma_bridge_key_injective(first: Seq<char>, second: Seq<char>)
    requires
        bridge_key(first) == bridge_key(second),
    ensures
        first == second,
{
    lemma_bridge_key_names_room(first);
    lemma_bridge_key_names_room(second);
}

/// The two keyspaces are apart: no key of a name is the key of a mapping.
pub proof fn lemma_keyspaces_apart(room_id: Seq<char>, user_id: Seq<char>)
    ensures
        !is_bridge_key(username_key(room_id, user_id)),
        forall|other: Seq<char>| username_key(room_id, user_id) != #[trigger] bridge_key(other),
{
    reveal_strlit("bridge.");
    reveal_strlit("username.");
    let key = username_key(room_id, user_id);
    assert(key[0] == 'u');
    assert("bridge."@[0] == 'b');
    if is_bridge_key(key) {
        assert(key.subrange(0, 7)[0] == 'b');
    }
    assert forall|other: Seq<char>| key != #[trigger] bridge_key(other) by {
        assert(bridge_key(other)[0] == 'b');
    }
}

/// The key of the mapping of the chat room `room_id`.
pub fn bridge_key_of(room_id: &str) -> (key: String)
    ensures
        key@ == bridge_key(room_id@),
{
    join("bridge.", room_id)
}

/// The key of the name that `user_id` chose in the chat room `room_id`.
pub fn username_key_of(room_id: &str, user_id: &str) -> (key: String)
    ensures
        key@ == username_key(room_id@, user_id@),
{
    let mut key = join("username.", room_id);
    key.append(".");
    key.append(user_id);
    key
}

/// The chat room whose mapping stands under `key`, as `room_of_key` names
/// it.
pub fn room_id_of(key: &str) -> (room_id: String)
    ensures
        room_id@ == room_of_key(key@),
{
    let k = chars_of(key);
    let prefix = chars_of("bridge.");
    if prefix.len() <= k.len() {
        string_of(&k, prefix.len(), k.len())
    } else {
        String::new()
    }
}

/// The chat room whose mapping stands under `key`; `None` where `key` is
/// not the key of a mapping.
pub fn bridged_room(key: &str) -> (room_id: Option<String>)
    ensures
        match room_id {
            Some(room) => is_bridge_key(key@) && room@ == room_of_key(key@),
            None => !is_bridge_key(key@),
        },
{
    let k = chars_of(key);
    let prefix = chars_of("bridge.");
    if matches_at(&k, &prefix, 0) {
        Some(string_of(&k, prefix.len(), k.len()))
    } else {
        None
    }
}

} // verus!

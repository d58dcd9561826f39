//! What holds of the bridge over whole flows, proved in the model of its
//! surroundings.

use crate::commands::{error_line, AnswerView, CommandRunView};
use crate::exchange::{EventView, OutputView, RequestView, StoredView};
use crate::forward::{sender_name, ForwardRunView};
use crate::keys::{bridge_key, lemma_bridge_key_names_room, lemma_keyspaces_apart, username_key};
use crate::permissions::{constraint_of, Action};
use crate::poll::{
    forwarded, inbound, lemma_inbound_forwarded, short_list_words, PollRunView, PollStageView,
};
use crate::world::{RoomModel, World};
use crate::{BridgeMapping, OutboundBridgeMessage};
use vstd::prelude::*;

verus! {

/// Every flow comes to its end: a command, a forwarding and a poll ask for
/// six pieces of outside work at most, whatever they are about and
/// whatever the work gives here.
pub proof fn law_flows_end(
    world: World,
    room_id: Seq<char>,
    user_id: Seq<char>,
    arguments: Seq<Seq<char>>,
    body: Seq<char>,
    key: Seq<char>,
)
    ensures
        world.bridge(room_id, user_id, arguments).1.answer() is Some,
        world.username(room_id, user_id, arguments).1.answer() is Some,
        world.forward(room_id, user_id, body).1.stage is Finished,
        world.poll(key).1.stage is Finished,
{
    reveal_with_fuel(World::follow_command, 7);
    reveal_with_fuel(World::follow_forward, 7);
    reveal_with_fuel(World::follow_poll, 7);
}

/// No flow goes on forever, whatever the outside work gives: with every
/// move a flow has fewer pieces of work left to ask for, and a flow that
/// asks for nothing has ended. A command asks for six at most, a
/// forwarding for three, a poll for three.
pub proof fn law_flows_progress(
    command: CommandRunView,
    forwarding: ForwardRunView,
    poll: PollRunView,
    event: EventView,
)
    ensures
        ({
            let moved = command.advance(event);
            &&& moved.0.steps_left() <= 6
            &&& command.steps_left() > 0 ==> moved.0.steps_left() < command.steps_left()
            &&& moved.1.request is None <==> moved.0.steps_left() == 0
        }),
        ({
            let moved = forwarding.advance(event);
            &&& moved.0.steps_left() <= 3
            &&& forwarding.steps_left() > 0 ==> moved.0.steps_left() < forwarding.steps_left()
            &&& moved.1.request is None <==> moved.0.steps_left() == 0
        }),
        ({
            let moved = poll.advance(event);
            &&& moved.0.steps_left() <= 3
            &&& poll.steps_left() > 0 ==> moved.0.steps_left() < poll.steps_left()
            &&& moved.1.request is None <==> moved.0.steps_left() == 0
        }),
{
}

/// The subcommands of `bridge` are told apart.
proof fn lemma_subcommands_differ()
    ensures
        "create"@ != "destroy"@,
        "create"@ != "status"@,
        "destroy"@ != "status"@,
{
    reveal_strlit("create");
    reveal_strlit("destroy");
    reveal_strlit("status");
    assert("create"@[0] == 'c');
    assert("status"@[0] == 's');
    assert("destroy"@[0] == 'd');
}

/// A chat room is bridged once: after a `bridge create` that ended with
/// `Bridged`, a second one by the same user in the same chat room, for
/// whatever room and password, ends with `AlreadyBridged` and leaves the
/// store, and with it the cursor, as it was.
pub proof fn law_create_twice(
    world: World,
    room_id: Seq<char>,
    user_id: Seq<char>,
    room_name: Seq<char>,
    room_password: Seq<char>,
    other_name: Seq<char>,
    other_password: Seq<char>,
)
    requires
        world.create(room_id, user_id, room_name, room_password).1.answer() == Some(
            AnswerView::Bridged { room_name },
        ),
    ensures
        ({
            let first = world.create(room_id, user_id, room_name, room_password);
            let second = first.0.create(room_id, user_id, other_name, other_password);
            &&& second.1.answer() == Some(AnswerView::AlreadyBridged)
            &&& second.0 == first.0
            &&& second.0.cursor(room_id) == first.0.cursor(room_id)
        }),
{
    reveal_with_fuel(World::follow_command, 7);
    reveal_strlit("create");
    let first = world.create(room_id, user_id, room_name, room_password);
    let arguments = seq!["create"@, room_name, room_password];
    assert(arguments[0] == "create"@);
    let others = seq!["create"@, other_name, other_password];
    assert(others[0] == "create"@);
    assert(first.0.store.contains_key(bridge_key(room_id)));
}

/// `bridge create` works where nothing stands in its way: the user has
/// the power level that the action asks for, the chat room has no entry in
/// the store, and the room is not initializing and accepts the password.
/// It then ends with `Bridged` and stores the mapping with the room's
/// message counter as the cursor, and nothing else.
pub proof fn law_create(
    world: World,
    room_id: Seq<char>,
    user_id: Seq<char>,
    room_name: Seq<char>,
    room_password: Seq<char>,
)
    requires
        (world.power_level)(room_id, user_id) matches Some(level) && constraint_of(
            Action::BridgeCreate,
        ).allows(level as int),
        !world.store.contains_key(bridge_key(room_id)),
        !(world.rooms)(room_name).initializing,
        (world.rooms)(room_name).password == room_password,
    ensures
        ({
            let after = world.create(room_id, user_id, room_name, room_password);
            let mapping = BridgeMapping {
                room_name,
                room_password,
                message_count: (world.rooms)(room_name).counter as nat,
            };
            &&& after.1.answer() == Some(AnswerView::Bridged { room_name })
            &&& after.0 == world.with_entry(bridge_key(room_id), (world.codec.encode)(mapping))
            &&& world.codec.faithful() ==> after.0.cursor(room_id) == Some(mapping.message_count)
        }),
{
    reveal_with_fuel(World::follow_command, 7);
    reveal_strlit("create");
    let arguments = seq!["create"@, room_name, room_password];
    assert(arguments[0] == "create"@);
}

/// What was created can be destroyed, and is then gone: after a `bridge
/// create` that ended with `Bridged`, `bridge destroy` by the same user
/// ends with `Unbridged` and the name of the room, and a `bridge status`
/// after that ends with `NotBridged`.
pub proof fn law_destroy_after_create(
    world: World,
    room_id: Seq<char>,
    user_id: Seq<char>,
    room_name: Seq<char>,
    room_password: Seq<char>,
    asker: Seq<char>,
)
    requires
        world.codec.faithful(),
        world.create(room_id, user_id, room_name, room_password).1.answer() == Some(
            AnswerView::Bridged { room_name },
        ),
    ensures
        ({
            let created = world.create(room_id, user_id, room_name, room_password);
            let destroyed = created.0.destroy(room_id, user_id);
            let asked = destroyed.0.status(room_id, asker);
            &&& destroyed.1.answer() == Some(AnswerView::Unbridged { room_name })
            &&& !destroyed.0.store.contains_key(bridge_key(room_id))
            &&& asked.1.answer() == Some(AnswerView::NotBridged)
            &&& asked.0 == destroyed.0
        }),
{
    reveal_with_fuel(World::follow_command, 7);
    lemma_subcommands_differ();
    let arguments = seq!["create"@, room_name, room_password];
    assert(arguments[0] == "create"@);
    let created = world.create(room_id, user_id, room_name, room_password);
    let mapping = BridgeMapping {
        room_name,
        room_password,
        message_count: (world.rooms)(room_name).counter as nat,
    };
    assert(created.0.store[bridge_key(room_id)] == (world.codec.encode)(mapping));
    assert((world.codec.decode)((world.codec.encode)(mapping)) == Ok::<BridgeMapping, Seq<char>>(
        mapping,
    ));
    assert(seq!["destroy"@][0] == "destroy"@);
    assert(seq!["status"@][0] == "status"@);
}

/// `bridge status` tells what `bridge create` stored: the name of the
/// room, and as the cursor the message counter that the room had.
pub proof fn law_status_after_create(
    world: World,
    room_id: Seq<char>,
    user_id: Seq<char>,
    room_name: Seq<char>,
    room_password: Seq<char>,
    asker: Seq<char>,
)
    requires
        world.codec.faithful(),
        world.create(room_id, user_id, room_name, room_password).1.answer() == Some(
            AnswerView::Bridged { room_name },
        ),
    ensures
        ({
            let created = world.create(room_id, user_id, room_name, room_password);
            let asked = created.0.status(room_id, asker);
            &&& asked.1.answer() == Some(
                AnswerView::Status { room_name, message_count: (world.rooms)(room_name).counter },
            )
            &&& asked.0 == created.0
        }),
{
    reveal_with_fuel(World::follow_command, 7);
    lemma_subcommands_differ();
    let arguments = seq!["create"@, room_name, room_password];
    assert(arguments[0] == "create"@);
    let mapping = BridgeMapping {
        room_name,
        room_password,
        message_count: (world.rooms)(room_name).counter as nat,
    };
    assert((world.codec.decode)((world.codec.encode)(mapping)) == Ok::<BridgeMapping, Seq<char>>(
        mapping,
    ));
    assert(seq!["status"@][0] == "status"@);
}

/// The subcommands of `username` are told apart.
proof fn lemma_name_subcommands_differ()
    ensures
        "set"@ != "get"@,
        "set"@ != "clear"@,
        "get"@ != "clear"@,
{
    reveal_strlit("set");
    reveal_strlit("get");
    reveal_strlit("clear");
    assert("set"@[0] == 's');
    assert("get"@[0] == 'g');
    assert("clear"@[0] == 'c');
}

/// A name that a user chose goes out with the user's messages: after
/// `username set` with `name`, a message of that user in that chat room,
/// where the chat room is bridged, joins the queue towards the room service
/// under `name`, whatever the user's display name is.
pub proof fn law_chosen_name_goes_out(
    world: World,
    room_id: Seq<char>,
    user_id: Seq<char>,
    name: Seq<char>,
    body: Seq<char>,
)
    requires
        world.stored(bridge_key(room_id)) is Present,
    ensures
        ({
            let mapping = world.stored(bridge_key(room_id))->Present_0;
            let chosen = world.username(room_id, user_id, seq!["set"@, name]);
            let sent = chosen.0.forward(room_id, user_id, body);
            &&& chosen.1.answer() == Some(AnswerView::UsernameSet { username: name })
            &&& sent.2 == seq![
                OutputView::Outbound(
                    OutboundBridgeMessage {
                        netchat_room_name: mapping.room_name,
                        netchat_room_password: mapping.room_password,
                        netchat_username: name,
                        netchat_message: body,
                    },
                ),
                OutputView::ReadReceipt,
            ]
        }),
{
    reveal_with_fuel(World::follow_command, 3);
    reveal_with_fuel(World::follow_forward, 5);
    lemma_name_subcommands_differ();
    lemma_keyspaces_apart(room_id, user_id);
    let arguments = seq!["set"@, name];
    assert(arguments[0] == "set"@);
    assert(arguments[1] == name);
    let mapping = world.stored(bridge_key(room_id))->Present_0;
    let chosen = world.username(room_id, user_id, arguments);
    assert(chosen.0.store == world.store.insert(username_key(room_id, user_id), name));
    assert(chosen.0.stored(bridge_key(room_id)) == world.stored(bridge_key(room_id)));
    let sent = chosen.0.forward(room_id, user_id, body);
    assert(sent.2 =~= seq![
        OutputView::Outbound(
            OutboundBridgeMessage {
                netchat_room_name: mapping.room_name,
                netchat_room_password: mapping.room_password,
                netchat_username: name,
                netchat_message: body,
            },
        ),
        OutputView::ReadReceipt,
    ]);
}

/// A name that was cleared is used no more: after `username clear`, a
/// message of that user in that chat room, where the chat room is bridged,
/// goes out under the user's display name, or under the user's identifier
/// where the user has none.
pub proof fn law_cleared_name_falls_back(
    world: World,
    room_id: Seq<char>,
    user_id: Seq<char>,
    body: Seq<char>,
)
    requires
        world.stored(bridge_key(room_id)) is Present,
    ensures
        ({
            let mapping = world.stored(bridge_key(room_id))->Present_0;
            let cleared = world.username(room_id, user_id, seq!["clear"@]);
            let sent = cleared.0.forward(room_id, user_id, body);
            &&& cleared.1.answer() == Some(AnswerView::UsernameCleared)
            &&& sent.2 == seq![
                OutputView::Outbound(
                    OutboundBridgeMessage {
                        netchat_room_name: mapping.room_name,
                        netchat_room_password: mapping.room_password,
                        netchat_username: sender_name(
                            None,
                            (world.display_name)(room_id, user_id),
                            user_id,
                        ),
                        netchat_message: body,
                    },
                ),
                OutputView::ReadReceipt,
            ]
        }),
{
    reveal_with_fuel(World::follow_command, 3);
    reveal_with_fuel(World::follow_forward, 5);
    lemma_name_subcommands_differ();
    lemma_keyspaces_apart(room_id, user_id);
    let arguments = seq!["clear"@];
    assert(arguments[0] == "clear"@);
    let mapping = world.stored(bridge_key(room_id))->Present_0;
    let cleared = world.username(room_id, user_id, arguments);
    assert(cleared.0.store == world.store.remove(username_key(room_id, user_id)));
    assert(cleared.0.stored(bridge_key(room_id)) == world.stored(bridge_key(room_id)));
    let sent = cleared.0.forward(room_id, user_id, body);
    assert(sent.2 =~= seq![
        OutputView::Outbound(
            OutboundBridgeMessage {
                netchat_room_name: mapping.room_name,
                netchat_room_password: mapping.room_password,
                netchat_username: sender_name(
                    None,
                    (world.display_name)(room_id, user_id),
                    user_id,
                ),
                netchat_message: body,
            },
        ),
        OutputView::ReadReceipt,
    ]);
}

/// The forwarding of a chat message leaves the store as it was, and with
/// it every mapping and every cursor: whatever the chat room, the sender
/// and the text, and whether the chat room is bridged or not, the world
/// after the forwarding is the world before it.
pub proof fn law_forward_leaves_store(
    world: World,
    room_id: Seq<char>,
    user_id: Seq<char>,
    body: Seq<char>,
    other_room: Seq<char>,
)
    ensures
        world.forward(room_id, user_id, body).0 == world,
        world.forward(room_id, user_id, body).0.cursor(other_room) == world.cursor(other_room),
{
    reveal_with_fuel(World::follow_forward, 5);
}

/// A forwarding asks the store to write nothing, whatever the outside
/// work gives: no step of it asks for a write or a removal.
pub proof fn law_forward_never_writes(forwarding: ForwardRunView, event: EventView)
    ensures
        ({
            let moved = forwarding.advance(event);
            moved.1.request matches Some(request) ==> request is LoadName || request is DisplayName
        }),
        ForwardRunView::started(forwarding.room_id, forwarding.sender, forwarding.body).1.request
            matches Some(request) && request is LoadMapping,
{
}

/// One cycle of the poll on the entry of a bridged chat room, whose cursor
/// is `cursor` and whose room gives the counter `fetched`.
///
/// A counter below the cursor sets the cursor to the counter and forwards
/// nothing. A counter equal to the cursor changes nothing. A counter above
/// the cursor, with at least as many messages on the list, enqueues the
/// messages from index `cursor` up to, not including, index `fetched`, in
/// their order and for this chat room, and then sets the cursor to the
/// counter. A list shorter than the counter changes nothing and is
/// logged.
pub proof fn law_poll_cycle(world: World, room_id: Seq<char>)
    requires
        world.codec.faithful(),
        world.cursor(room_id) is Some,
    ensures
        ({
            let mapping = world.stored(bridge_key(room_id))->Present_0;
            let room = (world.rooms)(mapping.room_name);
            let cursor = mapping.message_count;
            let fetched = room.counter;
            let polled = world.poll(bridge_key(room_id));
            &&& fetched < cursor ==> polled.0.cursor(room_id) == Some(fetched as nat) && forwarded(
                polled.2,
            ) == 0
            &&& fetched == cursor ==> polled.0 == world && polled.2 == Seq::<OutputView>::empty()
            &&& cursor < fetched <= room.messages.len() ==> polled.0.cursor(room_id) == Some(
                fetched as nat,
            ) && polled.2 == inbound(room.messages.subrange(cursor as int, fetched as int), room_id)
            &&& cursor < fetched && room.messages.len() < fetched ==> polled.0 == world && polled.2
                == seq![error_line(short_list_words())]
            &&& polled.0.stored(bridge_key(room_id)) matches StoredView::Present(after)
                && after.room_name == mapping.room_name && after.room_password
                == mapping.room_password
        }),
{
    reveal_with_fuel(World::follow_poll, 4);
    reveal_with_fuel(forwarded, 3);
    lemma_bridge_key_names_room(room_id);
    let key = bridge_key(room_id);
    let mapping = world.stored(key)->Present_0;
    let room = (world.rooms)(mapping.room_name);
    let moved = BridgeMapping { message_count: room.counter as nat, ..mapping };
    assert((world.codec.decode)((world.codec.encode)(moved)) == Ok::<BridgeMapping, Seq<char>>(
        moved,
    ));
    let polled = world.poll(key);
    if room.counter < mapping.message_count {
        assert(polled.2.len() == 1);
        assert(polled.2.drop_last() =~= Seq::<OutputView>::empty());
    } else if room.counter == mapping.message_count {
        assert(polled.2 =~= Seq::<OutputView>::empty());
    } else if room.counter <= room.messages.len() {
        assert(polled.2 =~= inbound(
            room.messages.subrange(mapping.message_count as int, room.counter as int),
            room_id,
        ));
    } else {
        assert(polled.2 =~= seq![error_line(short_list_words())]);
    }
}

/// The cursor and the count of one cycle of the poll, where the room
/// service does not give fewer messages than a counter above the cursor
/// says: the cursor ends as the fetched counter, so it falls only where the
/// counter is below it, and the number of messages forwarded is the fetched
/// counter less the cursor, or zero where that is negative.
pub proof fn law_cursor_and_count(world: World, room_id: Seq<char>)
    requires
        world.codec.faithful(),
        world.cursor(room_id) is Some,
        ({
            let mapping = world.stored(bridge_key(room_id))->Present_0;
            let room = (world.rooms)(mapping.room_name);
            room.counter <= mapping.message_count || room.counter <= room.messages.len()
        }),
    ensures
        ({
            let mapping = world.stored(bridge_key(room_id))->Present_0;
            let before = world.cursor(room_id)->0;
            let fetched = (world.rooms)(mapping.room_name).counter as nat;
            let polled = world.poll(bridge_key(room_id));
            &&& polled.0.cursor(room_id) == Some(fetched)
            &&& forwarded(polled.2) == if fetched > before {
                fetched - before
            } else {
                0
            }
        }),
{
    law_poll_cycle(world, room_id);
    let mapping = world.stored(bridge_key(room_id))->Present_0;
    let room = (world.rooms)(mapping.room_name);
    let cursor = mapping.message_count;
    reveal_with_fuel(forwarded, 3);
    if cursor < room.counter {
        lemma_inbound_forwarded(
            room.messages.subrange(cursor as int, room.counter as int),
            room_id,
        );
    }
}

/// A bridged chat room stays bridged to its room over any rounds of the
/// poll.
proof fn lemma_rounds_keep_mapping(world: World, room_id: Seq<char>, rounds: Seq<RoomModel>)
    requires
        world.codec.faithful(),
        world.cursor(room_id) is Some,
    ensures
        world.after_rounds(room_id, rounds).codec == world.codec,
        world.after_rounds(room_id, rounds).stored(bridge_key(room_id)) matches StoredView::Present(
            after,
        ) && after.room_name == world.stored(bridge_key(room_id))->Present_0.room_name,
    decreases rounds.len(),
{
    if rounds.len() > 0 {
        lemma_rounds_keep_mapping(world, room_id, rounds.drop_last());
        let before = world.after_rounds(room_id, rounds.drop_last());
        let mapping = before.stored(bridge_key(room_id))->Present_0;
        let set = before.with_room(mapping.room_name, rounds.last());
        assert(set.stored(bridge_key(room_id)) == before.stored(bridge_key(room_id)));
        law_poll_cycle(set, room_id);
        reveal_with_fuel(World::follow_poll, 4);
    }
}

/// The cursor over any sequence of fetched counters: whatever the room
/// gave in the rounds before, in the last of `rounds` the cursor falls only
/// where the counter of that round is below it. The cursor ends as that
/// counter, and the round forwards the counter less the cursor before, or
/// nothing where that is negative. The one exception is a round in which
/// the room gives fewer messages than a counter above the cursor says: the
/// cursor then stays and nothing is forwarded.
pub proof fn law_cursor_over_rounds(world: World, room_id: Seq<char>, rounds: Seq<RoomModel>)
    requires
        world.codec.faithful(),
        world.cursor(room_id) is Some,
        rounds.len() > 0,
    ensures
        ({
            let earlier = world.after_rounds(room_id, rounds.drop_last());
            let last = earlier.round(room_id, rounds.last());
            let fetched = rounds.last().counter as nat;
            &&& world.after_rounds(room_id, rounds) == last.0
            &&& earlier.cursor(room_id) matches Some(before) && last.0.cursor(room_id) matches Some(
                after,
            ) && {
                &&& after < before ==> fetched < before
                &&& fetched <= before || fetched <= rounds.last().messages.len() ==> after
                    == fetched && forwarded(last.1) == if fetched > before {
                    fetched - before
                } else {
                    0
                }
                &&& before < fetched && rounds.last().messages.len() < fetched ==> after == before
                    && forwarded(last.1) == 0
            }
        }),
{
    lemma_rounds_keep_mapping(world, room_id, rounds.drop_last());
    let earlier = world.after_rounds(room_id, rounds.drop_last());
    let mapping = earlier.stored(bridge_key(room_id))->Present_0;
    let set = earlier.with_room(mapping.room_name, rounds.last());
    assert(set.stored(bridge_key(room_id)) == earlier.stored(bridge_key(room_id)));
    law_poll_cycle(set, room_id);
    reveal_with_fuel(forwarded, 3);
    if rounds.last().counter <= mapping.message_count || rounds.last().counter
        <= rounds.last().messages.len() {
        law_cursor_and_count(set, room_id);
    } else {
        let polled = set.poll(bridge_key(room_id));
        assert(polled.2.drop_last() =~= Seq::<OutputView>::empty());
    }
}

/// What a poll writes, whatever the store and the room service do: a poll
/// asks the store for one thing only, to take the mapping of its entry
/// with the cursor set to the counter that was fetched. It asks so after a
/// counter below the cursor, and then forwards nothing, or after the list
/// of messages, and then forwards as many messages as the counter is above
/// the cursor. A step that writes nothing forwards nothing, so a failure
/// leaves the cursor and the queue alone.
pub proof fn law_poll_step(run: PollRunView, event: EventView)
    ensures
        ({
            let moved = run.advance(event);
            &&& moved.1.request matches Some(RequestView::SaveMapping { key, data }) ==> {
                &&& key == run.key
                &&& run.stage matches PollStageView::Count { data: old } ==> {
                    &&& event matches EventView::Count(fetched)
                    &&& fetched < old.message_count
                    &&& data == (BridgeMapping { message_count: fetched as nat, ..old })
                    &&& forwarded(moved.1.outputs) == 0
                }
                &&& run.stage matches PollStageView::Messages { data: old, fetched } ==> {
                    &&& event is Messages
                    &&& old.message_count <= fetched
                    &&& data == (BridgeMapping { message_count: fetched as nat, ..old })
                    &&& forwarded(moved.1.outputs) == fetched - old.message_count
                }
                &&& run.stage is Count || run.stage is Messages
            }
            &&& !(moved.1.request matches Some(RequestView::SaveMapping { .. })) ==> forwarded(
                moved.1.outputs,
            ) == 0
            &&& moved.1.request matches Some(request) ==> request is SaveMapping
                || request is Messages
        }),
{
    reveal_with_fuel(forwarded, 3);
    let moved = run.advance(event);
    match run.stage {
        PollStageView::Count { data } => {
            assert(moved.1.outputs.len() <= 1);
            if moved.1.outputs.len() == 1 {
                assert(moved.1.outputs.drop_last() =~= Seq::<OutputView>::empty());
            }
        },
        PollStageView::Messages { data, fetched } => {
            match event {
                EventView::Messages(messages) => {
                    if data.message_count <= fetched <= messages.len() {
                        lemma_inbound_forwarded(
                            messages.subrange(data.message_count as int, fetched as int),
                            crate::keys::room_of_key(run.key),
                        );
                    } else {
                        assert(moved.1.outputs.drop_last() =~= Seq::<OutputView>::empty());
                    }
                },
                _ => {
                    assert(moved.1.outputs.drop_last() =~= Seq::<OutputView>::empty());
                },
            }
        },
        PollStageView::Save => {
            if moved.1.outputs.len() == 1 {
                assert(moved.1.outputs.drop_last() =~= Seq::<OutputView>::empty());
            }
        },
        PollStageView::Finished => {},
    }
}

/// The names that users chose and the mappings of chat rooms do not touch
/// each other: a `username` command, whatever its arguments, leaves every
/// mapping as it is.
pub proof fn law_username_leaves_mappings(
    world: World,
    room_id: Seq<char>,
    user_id: Seq<char>,
    arguments: Seq<Seq<char>>,
    other_room: Seq<char>,
)
    ensures
        world.username(room_id, user_id, arguments).0.stored(bridge_key(other_room))
            == world.stored(bridge_key(other_room)),
{
    reveal_with_fuel(World::follow_command, 3);
    lemma_keyspaces_apart(room_id, user_id);
}

/// A `bridge` command, whatever its arguments, leaves every name that a
/// user chose as it is.
pub proof fn law_bridge_leaves_names(
    world: World,
    room_id: Seq<char>,
    user_id: Seq<char>,
    arguments: Seq<Seq<char>>,
    other_room: Seq<char>,
    other_user: Seq<char>,
)
    ensures
        ({
            let key = username_key(other_room, other_user);
            let after = world.bridge(room_id, user_id, arguments).0;
            &&& after.store.contains_key(key) == world.store.contains_key(key)
            &&& after.store.contains_key(key) ==> after.store[key] == world.store[key]
        }),
{
    reveal_with_fuel(World::follow_command, 7);
    lemma_keyspaces_apart(other_room, other_user);
}

} // verus!

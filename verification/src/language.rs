//! The texts that the bridge says in a chat room.

use crate::text::same;
use vstd::prelude::*;

verus! {

/// The text that stands under `key`; the key itself where none does.
pub open spec fn text_of(key: Seq<char>) -> Seq<char> {
    if key == "pong"@ {
        "🏓 Pong!"@
    } else if key == "command_no_permissions"@ {
        "You do not have the permissions to use this command! This command requires power level <code>{minimum_power_level}</code>."@
    } else if key == "fetch_permissions_failed"@ {
        "Uh oh! An error occurred while fetching your room permissions (<code>{error}</code>). For safety reasons, you have been denied access to use this command."@
    } else if key == "missing_subcommand"@ {
        "This command requires a subcommand! Valid choices are <b>{subcommands}</b>."@
    } else if key == "missing_arguments"@ {
        "You did not supply enough arguments! This command requires at least <b>{count} argument(s)</b> ({arguments})."@
    } else if key == "database_error"@ {
        "Uh oh! Something went wrong while interacting with the database (<code>{error}</code>). Please try again later."@
    } else if key == "database_possibly_corrupted"@ {
        "Uh oh! Something went wrong while processing data from the database (<code>{error}</code>). This issue might be resolved later."@
    } else if key == "fetch_room_failed"@ {
        "Uh oh! An error occurred while fetching that NetChat room (<code>{error}</code>). Please try again later."@
    } else if key == "room_currently_initializing"@ {
        "Seems like that NetChat room is currently being initialized. Please try again in a few minutes."@
    } else if key == "room_already_bridged"@ {
        "Hmm, seems like this room has already been bridged. You can use the \"unbridge\" command to unbridge this room and try again."@
    } else if key == "room_not_bridged"@ {
        "This Matrix room is currently not bridged to any NetChat room."@
    } else if key == "room_wrong_password"@ {
        "Hmm, I can't seem to access that room, maybe the password you supplied is wrong?"@
    } else if key == "room_successfully_bridged"@ {
        "This Matrix room has been successfully bridged to <b>{room_name}</b>."@
    } else if key == "room_successfully_unbridged"@ {
        "This Matrix room has been successfully unbridged from <b>{room_name}</b>."@
    } else if key == "room_status"@ {
        "This Matrix room is currently bridged to <b>{room_name}</b> (<b>{room_message_count}</b> messages)."@
    } else if key == "message_bridge_failed"@ {
        "Uh oh! Something went wrong while bridging that message (<code>{error}</code>). Please try again later."@
    } else if key == "username_set_successfully"@ {
        "Your NetChat username for this room has been successfully set to <b>{username}</b>."@
    } else if key == "username_cleared_successfully"@ {
        "Your NetChat username for this room has been successfully cleared. Your NetChat messages will now send as your Matrix display name."@
    } else if key == "username_not_set"@ {
        "You do not have a NetChat username for this room."@
    } else if key == "current_username"@ {
        "Your NetChat username for this room is <b>{username}</b>."@
    } else {
        key
    }
}

/// The text that stands under `key`. A key under which none stands is
/// handed back as it is.
pub fn get_text<'a>(key: &'a str) -> (text: &'a str)
    ensures
        text@ == text_of(key@),
{
    if same(key, "pong") {
        "🏓 Pong!"
    } else if same(key, "command_no_permissions") {
        "You do not have the permissions to use this command! This command requires power level <code>{minimum_power_level}</code>."
    } else if same(key, "fetch_permissions_failed") {
        "Uh oh! An error occurred while fetching your room permissions (<code>{error}</code>). For safety reasons, you have been denied access to use this command."
    } else if same(key, "missing_subcommand") {
        "This command requires a subcommand! Valid choices are <b>{subcommands}</b>."
    } else if same(key, "missing_arguments") {
        "You did not supply enough arguments! This command requires at least <b>{count} argument(s)</b> ({arguments})."
    } else if same(key, "database_error") {
        "Uh oh! Something went wrong while interacting with the database (<code>{error}</code>). Please try again later."
    } else if same(key, "database_possibly_corrupted") {
        "Uh oh! Something went wrong while processing data from the database (<code>{error}</code>). This issue might be resolved later."
    } else if same(key, "fetch_room_failed") {
        "Uh oh! An error occurred while fetching that NetChat room (<code>{error}</code>). Please try again later."
    } else if same(key, "room_currently_initializing") {
        "Seems like that NetChat room is currently being initialized. Please try again in a few minutes."
    } else if same(key, "room_already_bridged") {
        "Hmm, seems like this room has already been bridged. You can use the \"unbridge\" command to unbridge this room and try again."
    } else if same(key, "room_not_bridged") {
        "This Matrix room is currently not bridged to any NetChat room."
    } else if same(key, "room_wrong_password") {
        "Hmm, I can't seem to access that room, maybe the password you supplied is wrong?"
    } else if same(key, "room_successfully_bridged") {
        "This Matrix room has been successfully bridged to <b>{room_name}</b>."
    } else if same(key, "room_successfully_unbridged") {
        "This Matrix room has been successfully unbridged from <b>{room_name}</b>."
    } else if same(key, "room_status") {
        "This Matrix room is currently bridged to <b>{room_name}</b> (<b>{room_message_count}</b> messages)."
    } else if same(key, "message_bridge_failed") {
        "Uh oh! Something went wrong while bridging that message (<code>{error}</code>). Please try again later."
    } else if same(key, "username_set_successfully") {
        "Your NetChat username for this room has been successfully set to <b>{username}</b>."
    } else if same(key, "username_cleared_successfully") {
        "Your NetChat username for this room has been successfully cleared. Your NetChat messages will now send as your Matrix display name."
    } else if same(key, "username_not_set") {
        "You do not have a NetChat username for this room."
    } else if same(key, "current_username") {
        "Your NetChat username for this room is <b>{username}</b>."
    } else {
        key
    }
}

} // verus!

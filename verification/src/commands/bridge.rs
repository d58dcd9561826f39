//! The command `bridge`: `create`, `destroy` and `status`.

use super::{
    Answer, AnswerView, CommandInput, CommandInputView, CommandRun, CommandRunView, Family, Stage,
    StageView,
};
use crate::exchange::{
    nothing, one, Event, EventView, Output, OutputView, Request, RequestView, Step, StepView,
    Stored, StoredView,
};
use crate::keys::{bridge_key, bridge_key_of};
use crate::permissions::{verdict_of, Action};
use crate::text::same;
use crate::utilities::{handle_permissions, refusal};
use crate::{BridgeMapping, BridgedRoomData};
use vstd::prelude::*;

verus! {

/// The answer that refuses `action` after the event of a power-level
/// lookup; `None` where the event permits the action.
pub open spec fn permission_refusal(event: EventView, action: Action) -> Option<AnswerView> {
    match event {
        EventView::PowerLevel(power_level) => refusal(verdict_of(Ok(power_level), action), action),
        EventView::LookupFailed(error) => refusal(verdict_of(Err(error), action), action),
        _ => Some(AnswerView::Unexpected),
    }
}

/// The answer to an event that tells of a failure or answers nothing: a
/// failed store is a `StoreError`, a failed request to the room service is
/// `Unreachable`, anything else is `Unexpected`.
pub open spec fn failure_of(event: EventView) -> AnswerView {
    match event {
        EventView::StoreFailed(error) => AnswerView::StoreError { error },
        EventView::RoomFailed(failure) => AnswerView::Unreachable { failure },
        _ => AnswerView::Unexpected,
    }
}

/// The first move of `bridge`.
///
/// Without a subcommand, and for `create` with fewer than two arguments,
/// the command ends at once. `create` and `destroy` first ask for the
/// user's power level, `status` (also `info`, `information`) for the
/// mapping. Any other subcommand is ignored.
pub open spec fn started(input: CommandInputView) -> (CommandRunView, StepView) {
    let run = CommandRunView::of(input);
    let who = RequestView::PowerLevel { room_id: input.room_id, user_id: input.sender };
    if input.arguments.len() < 1 {
        run.finish(AnswerView::MissingSubcommand(Family::Bridge))
    } else if input.arguments[0] == "create"@ {
        if input.arguments.len() < 3 {
            run.finish(AnswerView::MissingArguments(Family::Bridge))
        } else {
            run.wait(
                StageView::CreatePermission {
                    room_name: input.arguments[1],
                    room_password: input.arguments[2],
                },
                Seq::empty(),
                who,
            )
        }
    } else if input.arguments[0] == "destroy"@ {
        run.wait(StageView::DestroyPermission, Seq::empty(), who)
    } else if input.arguments[0] == "status"@ || input.arguments[0] == "info"@
        || input.arguments[0] == "information"@ {
        run.wait(
            StageView::StatusMapping,
            Seq::empty(),
            RequestView::LoadMapping { key: bridge_key(input.room_id) },
        )
    } else {
        run.finish(AnswerView::Ignored)
    }
}

/// The move of `bridge` on `event`.
///
/// `create`, once permitted, looks for a mapping of the chat room and ends
/// with `AlreadyBridged` where the store holds anything under its key. Else
/// it asks the room service, in this order, whether the room is
/// initializing, whether it accepts the password, and for its message
/// counter, and ends with `Initializing`, `WrongPassword` or `Unreachable`
/// at the first that stands in the way. At last it stores the mapping, with
/// the counter as its cursor, in one write.
///
/// `destroy`, once permitted, reads the mapping, removes it and ends with
/// the name of the room. `status` reads the mapping and ends with the
/// room's name and the cursor. Both end with `NotBridged` where there is no
/// mapping and with `CorruptRecord` where the store holds something else,
/// which stays as it is.
pub open spec fn advanced(run: CommandRunView, event: EventView) -> (CommandRunView, StepView) {
    let key = bridge_key(run.room_id);
    match run.stage {
        StageView::CreatePermission { room_name, room_password } => match permission_refusal(
            event,
            Action::BridgeCreate,
        ) {
            Some(answer) => run.finish(answer),
            None => run.wait(
                StageView::CreateExisting { room_name, room_password },
                Seq::empty(),
                RequestView::LoadMapping { key },
            ),
        },
        StageView::CreateExisting { room_name, room_password } => match event {
            EventView::Mapping(StoredView::Absent) => run.wait(
                StageView::CreateInitializing { room_name, room_password },
                seq![OutputView::Typing(true)],
                RequestView::Initializing { room_name, room_password },
            ),
            EventView::Mapping(_) => run.finish(AnswerView::AlreadyBridged),
            _ => run.finish(failure_of(event)),
        },
        StageView::CreateInitializing { room_name, room_password } => match event {
            EventView::Flag(true) => run.finish(AnswerView::Initializing),
            EventView::Flag(false) => run.wait(
                StageView::CreatePassword { room_name, room_password },
                Seq::empty(),
                RequestView::CheckPassword { room_name, room_password },
            ),
            _ => run.finish(failure_of(event)),
        },
        StageView::CreatePassword { room_name, room_password } => match event {
            EventView::Flag(false) => run.finish(AnswerView::WrongPassword),
            EventView::Flag(true) => run.wait(
                StageView::CreateCounter { room_name, room_password },
                Seq::empty(),
                RequestView::MessageCount { room_name, room_password },
            ),
            _ => run.finish(failure_of(event)),
        },
        StageView::CreateCounter { room_name, room_password } => match event {
            EventView::Count(count) => run.wait(
                StageView::CreateStore { room_name },
                Seq::empty(),
                RequestView::SaveMapping {
                    key,
                    data: BridgeMapping { room_name, room_password, message_count: count as nat },
                },
            ),
            _ => run.finish(failure_of(event)),
        },
        StageView::CreateStore { room_name } => match event {
            EventView::Written => run.finish(AnswerView::Bridged { room_name }),
            _ => run.finish(failure_of(event)),
        },
        StageView::DestroyPermission => match permission_refusal(event, Action::BridgeDestroy) {
            Some(answer) => run.finish(answer),
            None => run.wait(
                StageView::DestroyMapping,
                Seq::empty(),
                RequestView::LoadMapping { key },
            ),
        },
        StageView::DestroyMapping => match event {
            EventView::Mapping(StoredView::Present(data)) => run.wait(
                StageView::DestroyRemove { room_name: data.room_name },
                Seq::empty(),
                RequestView::Remove { key },
            ),
            EventView::Mapping(StoredView::Corrupt(error)) => run.finish(
                AnswerView::CorruptRecord { error },
            ),
            EventView::Mapping(StoredView::Absent) => run.finish(AnswerView::NotBridged),
            _ => run.finish(failure_of(event)),
        },
        StageView::DestroyRemove { room_name } => match event {
            EventView::Written => run.finish(AnswerView::Unbridged { room_name }),
            _ => run.finish(failure_of(event)),
        },
        StageView::StatusMapping => match event {
            EventView::Mapping(StoredView::Present(data)) => run.finish(
                AnswerView::Status {
                    room_name: data.room_name,
                    message_count: data.message_count as usize,
                },
            ),
            EventView::Mapping(StoredView::Corrupt(error)) => run.finish(
                AnswerView::CorruptRecord { error },
            ),
            EventView::Mapping(StoredView::Absent) => run.finish(AnswerView::NotBridged),
            _ => run.finish(failure_of(event)),
        },
        _ => run.finish(AnswerView::Unexpected),
    }
}

/// The answer to an event that tells of a failure or answers nothing.
pub fn failure(event: Event) -> (answer: Answer)
    ensures
        answer@ == failure_of(event@),
{
    match event {
        Event::StoreFailed(error) => Answer::StoreError { error },
        Event::RoomFailed(failure) => Answer::Unreachable { failure },
        _ => Answer::Unexpected,
    }
}

/// Decides on `action` from the event of a power-level lookup.
pub fn permission(event: Event, action: Action) -> (ended: Option<Answer>)
    ensures
        match permission_refusal(event@, action) {
            Some(answer) => ended matches Some(given) && given@ == answer,
            None => ended is None,
        },
{
    match event {
        Event::PowerLevel(power_level) => handle_permissions(Ok(power_level), action),
        Event::LookupFailed(error) => handle_permissions(Err(error), action),
        _ => Some(Answer::Unexpected),
    }
}

/// Starts `bridge` on `input`.
pub fn bridge_command(input: &CommandInput) -> (moved: (CommandRun, Step))
    ensures
        (moved.0@, moved.1@) == started(input@),
{
    let run = CommandRun::of(input);
    if input.arguments.len() < 1 {
        return run.finish(Answer::MissingSubcommand(Family::Bridge));
    }
    let subcommand = input.arguments[0].as_str();
    assert(subcommand@ == input@.arguments[0]);
    if same(subcommand, "create") {
        if input.arguments.len() < 3 {
            return run.finish(Answer::MissingArguments(Family::Bridge));
        }
        let room_name = input.arguments[1].clone();
        let room_password = input.arguments[2].clone();
        assert(room_name@ == input@.arguments[1]);
        assert(room_password@ == input@.arguments[2]);
        run.wait(
            Stage::CreatePermission { room_name, room_password },
            nothing(),
            Request::PowerLevel { room_id: input.room_id.clone(), user_id: input.sender.clone() },
        )
    } else if same(subcommand, "destroy") {
        run.wait(
            Stage::DestroyPermission,
            nothing(),
            Request::PowerLevel { room_id: input.room_id.clone(), user_id: input.sender.clone() },
        )
    } else if same(subcommand, "status") || same(subcommand, "info") || same(
        subcommand,
        "information",
    ) {
        let key = bridge_key_of(input.room_id.as_str());
        run.wait(Stage::StatusMapping, nothing(), Request::LoadMapping { key })
    } else {
        run.finish(Answer::Ignored)
    }
}

/// Moves `bridge` on `event`.
pub fn advance(run: CommandRun, event: Event) -> (moved: (CommandRun, Step))
    ensures
        (moved.0@, moved.1@) == advanced(run@, event@),
{
    let key = bridge_key_of(run.room_id.as_str());
    let CommandRun { room_id, sender, stage } = run;
    let run = CommandRun { room_id, sender, stage: Stage::Finished(Answer::Ignored) };
    match stage {
        Stage::CreatePermission { room_name, room_password } => {
            match permission(event, Action::BridgeCreate) {
                Some(answer) => run.finish(answer),
                None => run.wait(
                    Stage::CreateExisting { room_name, room_password },
                    nothing(),
                    Request::LoadMapping { key },
                ),
            }
        },
        Stage::CreateExisting { room_name, room_password } => match event {
            Event::Mapping(Stored::Absent) => {
                let request = Request::Initializing {
                    room_name: room_name.clone(),
                    room_password: room_password.clone(),
                };
                run.wait(
                    Stage::CreateInitializing { room_name, room_password },
                    one(Output::Typing(true)),
                    request,
                )
            },
            Event::Mapping(_) => run.finish(Answer::AlreadyBridged),
            other => run.finish(failure(other)),
        },
        Stage::CreateInitializing { room_name, room_password } => match event {
            Event::Flag(true) => run.finish(Answer::Initializing),
            Event::Flag(false) => {
                let request = Request::CheckPassword {
                    room_name: room_name.clone(),
                    room_password: room_password.clone(),
                };
                run.wait(Stage::CreatePassword { room_name, room_password }, nothing(), request)
            },
            other => run.finish(failure(other)),
        },
        Stage::CreatePassword { room_name, room_password } => match event {
            Event::Flag(false) => run.finish(Answer::WrongPassword),
            Event::Flag(true) => {
                let request = Request::MessageCount {
                    room_name: room_name.clone(),
                    room_password: room_password.clone(),
                };
                run.wait(Stage::CreateCounter { room_name, room_password }, nothing(), request)
            },
            other => run.finish(failure(other)),
        },
        Stage::CreateCounter { room_name, room_password } => match event {
            Event::Count(count) => {
                let data = BridgedRoomData::new(room_name.clone(), room_password, count);
                run.wait(
                    Stage::CreateStore { room_name },
                    nothing(),
                    Request::SaveMapping { key, data },
                )
            },
            other => run.finish(failure(other)),
        },
        Stage::CreateStore { room_name } => match event {
            Event::Written => run.finish(Answer::Bridged { room_name }),
            other => run.finish(failure(other)),
        },
        Stage::DestroyPermission => match permission(event, Action::BridgeDestroy) {
            Some(answer) => run.finish(answer),
            None => run.wait(Stage::DestroyMapping, nothing(), Request::LoadMapping { key }),
        },
        Stage::DestroyMapping => match event {
            Event::Mapping(Stored::Present(data)) => run.wait(
                Stage::DestroyRemove { room_name: data.room_name },
                nothing(),
                Request::Remove { key },
            ),
            Event::Mapping(Stored::Corrupt(error)) => run.finish(Answer::CorruptRecord { error }),
            Event::Mapping(Stored::Absent) => run.finish(Answer::NotBridged),
            other => run.finish(failure(other)),
        },
        Stage::DestroyRemove { room_name } => match event {
            Event::Written => run.finish(Answer::Unbridged { room_name }),
            other => run.finish(failure(other)),
        },
        Stage::StatusMapping => match event {
            Event::Mapping(Stored::Present(data)) => run.finish(
                Answer::Status { room_name: data.room_name, message_count: data.message_count },
            ),
            Event::Mapping(Stored::Corrupt(error)) => run.finish(Answer::CorruptRecord { error }),
            Event::Mapping(Stored::Absent) => run.finish(Answer::NotBridged),
            other => run.finish(failure(other)),
        },
        _ => run.finish(Answer::Unexpected),
    }
}

} // verus!

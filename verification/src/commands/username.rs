//! The command `username`: `set`, `get` and `clear`, for the name under
//! which a user's messages reach the room service.

use super::bridge::{failure, failure_of};
use super::{
    Answer, AnswerView, CommandInput, CommandInputView, CommandRun, CommandRunView, Family, Stage,
    StageView,
};
use crate::exchange::{nothing, Event, EventView, Request, RequestView, Step, StepView};
use crate::keys::{username_key, username_key_of};
use crate::text::same;
use vstd::prelude::*;

verus! {

/// The first move of `username`.
///
/// Without a subcommand, and for `set` without a name, the command ends at
/// once. `set` stores the name, `get` reads it, `clear` removes it, all
/// under the key of this user in this chat room. Any other subcommand is
/// ignored.
pub open spec fn started(input: CommandInputView) -> (CommandRunView, StepView) {
    let run = CommandRunView::of(input);
    let key = username_key(input.room_id, input.sender);
    if input.arguments.len() < 1 {
        run.finish(AnswerView::MissingSubcommand(Family::Username))
    } else if input.arguments[0] == "set"@ {
        if input.arguments.len() < 2 {
            run.finish(AnswerView::MissingArguments(Family::Username))
        } else {
            run.wait(
                StageView::UsernameSet { username: input.arguments[1] },
                Seq::empty(),
                RequestView::SaveName { key, name: input.arguments[1] },
            )
        }
    } else if input.arguments[0] == "get"@ {
        run.wait(StageView::UsernameGet, Seq::empty(), RequestView::LoadName { key })
    } else if input.arguments[0] == "clear"@ {
        run.wait(StageView::UsernameClear, Seq::empty(), RequestView::Remove { key })
    } else {
        run.finish(AnswerView::Ignored)
    }
}

/// The move of `username` on `event`: each subcommand ends with its one
/// answer from the store.
pub open spec fn advanced(run: CommandRunView, event: EventView) -> (CommandRunView, StepView) {
    match run.stage {
        StageView::UsernameSet { username } => match event {
            EventView::Written => run.finish(AnswerView::UsernameSet { username }),
            _ => run.finish(failure_of(event)),
        },
        StageView::UsernameGet => match event {
            EventView::Name(Some(username)) => run.finish(AnswerView::Username { username }),
            EventView::Name(None) => run.finish(AnswerView::UsernameNotSet),
            _ => run.finish(failure_of(event)),
        },
        StageView::UsernameClear => match event {
            EventView::Written => run.finish(AnswerView::UsernameCleared),
            _ => run.finish(failure_of(event)),
        },
        _ => run.finish(AnswerView::Unexpected),
    }
}

/// Starts `username` on `input`.
pub fn username_command(input: &CommandInput) -> (moved: (CommandRun, Step))
    ensures
        (moved.0@, moved.1@) == started(input@),
{
    let run = CommandRun::of(input);
    if input.arguments.len() < 1 {
        return run.finish(Answer::MissingSubcommand(Family::Username));
    }
    let key = username_key_of(input.room_id.as_str(), input.sender.as_str());
    let subcommand = input.arguments[0].as_str();
    assert(subcommand@ == input@.arguments[0]);
    if same(subcommand, "set") {
        if input.arguments.len() < 2 {
            return run.finish(Answer::MissingArguments(Family::Username));
        }
        let username = input.arguments[1].clone();
        let name = input.arguments[1].clone();
        assert(username@ == input@.arguments[1]);
        run.wait(Stage::UsernameSet { username }, nothing(), Request::SaveName { key, name })
    } else if same(subcommand, "get") {
        run.wait(Stage::UsernameGet, nothing(), Request::LoadName { key })
    } else if same(subcommand, "clear") {
        run.wait(Stage::UsernameClear, nothing(), Request::Remove { key })
    } else {
        run.finish(Answer::Ignored)
    }
}

/// Moves `username` on `event`.
pub fn advance(run: CommandRun, event: Event) -> (moved: (CommandRun, Step))
    ensures
        (moved.0@, moved.1@) == advanced(run@, event@),
{
    let CommandRun { room_id, sender, stage } = run;
    let run = CommandRun { room_id, sender, stage: Stage::Finished(Answer::Ignored) };
    match stage {
        Stage::UsernameSet { username } => match event {
            Event::Written => run.finish(Answer::UsernameSet { username }),
            other => run.finish(failure(other)),
        },
        Stage::UsernameGet => match event {
            Event::Name(Some(username)) => run.finish(Answer::Username { username }),
            Event::Name(None) => run.finish(Answer::UsernameNotSet),
            other => run.finish(failure(other)),
        },
        Stage::UsernameClear => match event {
            Event::Written => run.finish(Answer::UsernameCleared),
            other => run.finish(failure(other)),
        },
        _ => run.finish(Answer::Unexpected),
    }
}

} // verus!

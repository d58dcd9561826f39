//! The command `ping`.

use super::{Answer, AnswerView, CommandInput, CommandInputView, CommandRun, CommandRunView};
use crate::exchange::{Step, StepView};
use vstd::prelude::*;

verus! {

/// The one move of `ping`: it ends at once with `Pong`.
pub open spec fn ping_started(input: CommandInputView) -> (CommandRunView, StepView) {
    CommandRunView::of(input).finish(AnswerView::Pong)
}

/// Answers `ping`.
pub fn ping_command(input: &CommandInput) -> (moved: (CommandRun, Step))
    ensures
        (moved.0@, moved.1@) == ping_started(input@),
{
    CommandRun::of(input).finish(Answer::Pong)
}

} // verus!

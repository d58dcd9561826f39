//! What the command handlers share: the look of a message, and the words
//! that say who may do what.

use crate::commands::{Answer, AnswerView};
use crate::exchange::{output_views, LogMessageType, Output, OutputView};
use crate::permissions::{constraint_of, get_power_level_constraint, is_allowed, verdict_of, Action};
use crate::text::{contains, join3, occurs};
use vstd::prelude::*;

verus! {

/// Whether `text` holds markup: an opening and a closing tag of one kind,
/// bold or code.
pub open spec fn marked_up(text: Seq<char>) -> bool {
    ||| occurs(text, "<b>"@) && occurs(text, "</b>"@)
    ||| occurs(text, "<code>"@) && occurs(text, "</code>"@)
}

/// The warning for a message whose look does not fit the way it is sent.
pub open spec fn look_warning(content: Seq<char>) -> OutputView {
    OutputView::Log {
        kind: LogMessageType::Warning,
        message: "HTML not used but sent formatted message ("@ + content + ")"@,
    }
}

/// What the sending of a plain message hands out: a warning where the
/// content holds markup, the message, and the end of the typing notice.
pub open spec fn plain_outputs(content: Seq<char>) -> Seq<OutputView> {
    if marked_up(content) {
        seq![look_warning(content), OutputView::Plain(content), OutputView::Typing(false)]
    } else {
        seq![OutputView::Plain(content), OutputView::Typing(false)]
    }
}

/// What the sending of a marked-up message hands out: a warning where the
/// content holds no markup, the message, and the end of the typing notice.
pub open spec fn html_outputs(content: Seq<char>) -> Seq<OutputView> {
    if !marked_up(content) {
        seq![look_warning(content), OutputView::Html(content), OutputView::Typing(false)]
    } else {
        seq![OutputView::Html(content), OutputView::Typing(false)]
    }
}

/// Whether `string` holds markup.
pub fn has_html(string: &str) -> (found: bool)
    ensures
        found == marked_up(string@),
{
    (contains(string, "<b>") && contains(string, "</b>")) || (contains(string, "<code>")
        && contains(string, "</code>"))
}

fn warn_of_look(content: &str) -> (output: Output)
    ensures
        output@ == look_warning(content@),
{
    Output::Log {
        kind: LogMessageType::Warning,
        message: join3("HTML not used but sent formatted message (", content, ")"),
    }
}

/// Sends `content` as a plain message.
pub fn send_plain_message(content: String) -> (outputs: Vec<Output>)
    ensures
        output_views(outputs@) == plain_outputs(content@),
{
    let mut outputs: Vec<Output> = Vec::new();
    if has_html(content.as_str()) {
        outputs.push(warn_of_look(content.as_str()));
    }
    outputs.push(Output::Plain(content));
    outputs.push(Output::Typing(false));
    assert(output_views(outputs@) =~= plain_outputs(content@));
    outputs
}

/// Sends `content` as a marked-up message.
pub fn send_html_message(content: String) -> (outputs: Vec<Output>)
    ensures
        output_views(outputs@) == html_outputs(content@),
{
    let mut outputs: Vec<Output> = Vec::new();
    if !has_html(content.as_str()) {
        outputs.push(warn_of_look(content.as_str()));
    }
    outputs.push(Output::Html(content));
    outputs.push(Output::Typing(false));
    assert(output_views(outputs@) =~= html_outputs(content@));
    outputs
}

/// What the chat platform gave on a member, with strings as their views.
pub open spec fn member_view(member: Result<Option<i64>, String>) -> Result<
    Option<i64>,
    Seq<char>,
> {
    match member {
        Ok(power_level) => Ok(power_level),
        Err(error) => Err(error@),
    }
}

/// The answer that refuses an action after a verdict; `None`
/// where the verdict permits it. A verdict that could not be reached
/// refuses as a denial does, and says so in its own words.
pub open spec fn refusal(verdict: Result<bool, Seq<char>>, action: Action) -> Option<AnswerView> {
    match verdict {
        Ok(true) => None,
        Ok(false) => Some(AnswerView::PermissionDenied { minimum: constraint_of(action).minimum }),
        Err(error) => Some(AnswerView::PermissionLookupFailed { error }),
    }
}

/// Decides on `action`: `None` where the member may perform it,
/// else the answer that ends the command.
pub fn handle_permissions(member: Result<Option<i64>, String>, action: Action) -> (ended: Option<
    Answer,
>)
    ensures
        match refusal(verdict_of(member_view(member), action), action) {
            Some(answer) => ended matches Some(given) && given@ == answer,
            None => ended is None,
        },
{
    match is_allowed(member, action) {
        Ok(true) => None,
        Ok(false) => Some(
            Answer::PermissionDenied { minimum: get_power_level_constraint(action).minimum },
        ),
        Err(error) => Some(Answer::PermissionLookupFailed { error }),
    }
}

} // verus!

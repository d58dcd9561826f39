//! The commands of the chat room: `ping`, `bridge` and `username`.
//!
//! A command runs as a flow. It starts from the arguments, asks for one
//! piece of outside work at a time, and ends with an `Answer`, which it
//! also says in the chat room.

pub mod basic;
pub mod bridge;
pub mod username;

use crate::exchange::{
    log_error, nothing, output_views, Event, EventView, LogMessageType, Output, OutputView, Request,
    RequestView, Step, StepView,
};
use crate::language::{get_text, text_of};
use crate::netchat::{NetchatError, NetchatErrorView};
use crate::text::{
    decimal, decimal_string, replace, replaced, same, signed_decimal, signed_decimal_string, views,
};
use crate::utilities::{html_outputs, plain_outputs, send_html_message, send_plain_message};
use vstd::prelude::*;

verus! {

/// What a command has to work on: the chat room it was said in, the user
/// who said it, and its arguments.
#[derive(Clone, Debug, PartialEq, Eq)]
pub struct CommandInput {
    pub room_id: String,
    pub sender: String,
    pub arguments: Vec<String>,
}

pub struct CommandInputView {
    pub room_id: Seq<char>,
    pub sender: Seq<char>,
    pub arguments: Seq<Seq<char>>,
}

impl View for CommandInput {
    type V = CommandInputView;

    open spec fn view(&self) -> CommandInputView {
        CommandInputView {
            room_id: self.room_id@,
            sender: self.sender@,
            arguments: views(self.arguments@),
        }
    }
}

/// The commands that take a subcommand.
#[derive(Clone, Copy, Debug, PartialEq, Eq, Structural)]
pub enum Family {
    Bridge,
    Username,
}

/// How a command ended.
#[derive(Clone, Debug, PartialEq, Eq)]
pub enum Answer {
    /// `ping` was answered.
    Pong,
    /// The chat room is now bridged to the room `room_name`.
    Bridged { room_name: String },
    /// The chat room is no longer bridged to the room `room_name`.
    Unbridged { room_name: String },
    /// The chat room is bridged to the room `room_name`, with this cursor.
    Status { room_name: String, message_count: usize },
    /// The user's name in this chat room is now `username`.
    UsernameSet { username: String },
    /// The user has no name of their own in this chat room any more.
    UsernameCleared,
    /// The user's name in this chat room is `username`.
    Username { username: String },
    /// The command or its subcommand is not known; nothing is said.
    Ignored,
    /// The command lacks its subcommand.
    MissingSubcommand(Family),
    /// The subcommand lacks arguments.
    MissingArguments(Family),
    /// The user's power level does not permit the action; the action asks
    /// for at least `minimum`.
    PermissionDenied { minimum: i64 },
    /// The user's power level could not be found out; the action is denied.
    PermissionLookupFailed { error: String },
    /// The store failed.
    StoreError { error: String },
    /// What the store holds for the chat room is no mapping.
    CorruptRecord { error: String },
    /// The room service could not be reached or refused.
    Unreachable { failure: NetchatError },
    /// The chat room is bridged already.
    AlreadyBridged,
    /// The chat room is not bridged.
    NotBridged,
    /// The room of the room service is still initializing.
    Initializing,
    /// The room of the room service does not accept the password.
    WrongPassword,
    /// The user has no name of their own in this chat room.
    UsernameNotSet,
    /// The flow was handed an event that does not answer its request.
    Unexpected,
}

pub enum AnswerView {
    Pong,
    Bridged { room_name: Seq<char> },
    Unbridged { room_name: Seq<char> },
    Status { room_name: Seq<char>, message_count: usize },
    UsernameSet { username: Seq<char> },
    UsernameCleared,
    Username { username: Seq<char> },
    Ignored,
    MissingSubcommand(Family),
    MissingArguments(Family),
    PermissionDenied { minimum: i64 },
    PermissionLookupFailed { error: Seq<char> },
    StoreError { error: Seq<char> },
    CorruptRecord { error: Seq<char> },
    Unreachable { failure: NetchatErrorView },
    AlreadyBridged,
    NotBridged,
    Initializing,
    WrongPassword,
    UsernameNotSet,
    Unexpected,
}

impl View for Answer {
    type V = AnswerView;

    open spec fn view(&self) -> AnswerView {
        match self {
            Answer::Pong => AnswerView::Pong,
            Answer::Bridged { room_name } => AnswerView::Bridged { room_name: room_name@ },
            Answer::Unbridged { room_name } => AnswerView::Unbridged { room_name: room_name@ },
            Answer::Status { room_name, message_count } => AnswerView::Status {
                room_name: room_name@,
                message_count: *message_count,
            },
            Answer::UsernameSet { username } => AnswerView::UsernameSet { username: username@ },
            Answer::UsernameCleared => AnswerView::UsernameCleared,
            Answer::Username { username } => AnswerView::Username { username: username@ },
            Answer::Ignored => AnswerView::Ignored,
            Answer::MissingSubcommand(family) => AnswerView::MissingSubcommand(*family),
            Answer::MissingArguments(family) => AnswerView::MissingArguments(*family),
            Answer::PermissionDenied { minimum } => AnswerView::PermissionDenied {
                minimum: *minimum,
            },
            Answer::PermissionLookupFailed { error } => AnswerView::PermissionLookupFailed {
                error: error@,
            },
            Answer::StoreError { error } => AnswerView::StoreError { error: error@ },
            Answer::CorruptRecord { error } => AnswerView::CorruptRecord { error: error@ },
            Answer::Unreachable { failure } => AnswerView::Unreachable { failure: failure@ },
            Answer::AlreadyBridged => AnswerView::AlreadyBridged,
            Answer::NotBridged => AnswerView::NotBridged,
            Answer::Initializing => AnswerView::Initializing,
            Answer::WrongPassword => AnswerView::WrongPassword,
            Answer::UsernameNotSet => AnswerView::UsernameNotSet,
            Answer::Unexpected => AnswerView::Unexpected,
        }
    }
}

/// The subcommands of a family, as the chat room is told them.
pub open spec fn subcommands_of(family: Family) -> Seq<char> {
    match family {
        Family::Bridge => "create/destroy/status"@,
        Family::Username => "set/get/clear"@,
    }
}

/// How many arguments the subcommand of a family that takes some asks for.
pub open spec fn argument_count_of(family: Family) -> Seq<char> {
    match family {
        Family::Bridge => "2"@,
        Family::Username => "1"@,
    }
}

/// The subcommand of a family that takes arguments, with their names.
pub open spec fn arguments_of(family: Family) -> Seq<char> {
    match family {
        Family::Bridge => "create <room_name> <room_password>"@,
        Family::Username => "set <name>"@,
    }
}

/// The words of the log for an event that does not answer the request.
pub open spec fn unexpected_words() -> Seq<char> {
    "the event does not answer the request"@
}

/// The line of kind `Error` that holds `message`.
pub open spec fn error_line(message: Seq<char>) -> OutputView {
    OutputView::Log { kind: LogMessageType::Error, message }
}

/// What an answer hands out: what it says in the chat room, after a line
/// for the log where it tells of a failure outside the chat room.
pub open spec fn rendered(answer: AnswerView) -> Seq<OutputView> {
    match answer {
        AnswerView::Pong => plain_outputs(text_of("pong"@)),
        AnswerView::Bridged { room_name } => html_outputs(
            replaced(text_of("room_successfully_bridged"@), "{room_name}"@, room_name),
        ),
        AnswerView::Unbridged { room_name } => html_outputs(
            replaced(text_of("room_successfully_unbridged"@), "{room_name}"@, room_name),
        ),
        AnswerView::Status { room_name, message_count } => html_outputs(
            replaced(
                replaced(text_of("room_status"@), "{room_name}"@, room_name),
                "{room_message_count}"@,
                decimal(message_count as nat),
            ),
        ),
        AnswerView::UsernameSet { username } => html_outputs(
            replaced(text_of("username_set_successfully"@), "{username}"@, username),
        ),
        AnswerView::UsernameCleared => plain_outputs(text_of("username_cleared_successfully"@)),
        AnswerView::Username { username } => html_outputs(
            replaced(text_of("current_username"@), "{username}"@, username),
        ),
        AnswerView::Ignored => Seq::empty(),
        AnswerView::MissingSubcommand(family) => html_outputs(
            replaced(text_of("missing_subcommand"@), "{subcommands}"@, subcommands_of(family)),
        ),
        AnswerView::MissingArguments(family) => html_outputs(
            replaced(
                replaced(text_of("missing_arguments"@), "{count}"@, argument_count_of(family)),
                "{arguments}"@,
                arguments_of(family),
            ),
        ),
        AnswerView::PermissionDenied { minimum } => plain_outputs(
            replaced(
                text_of("command_no_permissions"@),
                "{minimum_power_level}"@,
                signed_decimal(minimum as int),
            ),
        ),
        AnswerView::PermissionLookupFailed { error } => seq![error_line(error)] + plain_outputs(
            replaced(text_of("fetch_permissions_failed"@), "{error}"@, error),
        ),
        AnswerView::StoreError { error } => seq![error_line(error)] + html_outputs(
            replaced(text_of("database_error"@), "{error}"@, error),
        ),
        AnswerView::CorruptRecord { error } => seq![error_line(error)] + html_outputs(
            replaced(text_of("database_possibly_corrupted"@), "{error}"@, error),
        ),
        AnswerView::Unreachable { failure } => seq![error_line(failure.message)] + html_outputs(
            replaced(text_of("fetch_room_failed"@), "{error}"@, failure.message),
        ),
        AnswerView::AlreadyBridged => plain_outputs(text_of("room_already_bridged"@)),
        AnswerView::NotBridged => plain_outputs(text_of("room_not_bridged"@)),
        AnswerView::Initializing => plain_outputs(text_of("room_currently_initializing"@)),
        AnswerView::WrongPassword => plain_outputs(text_of("room_wrong_password"@)),
        AnswerView::UsernameNotSet => plain_outputs(text_of("username_not_set"@)),
        AnswerView::Unexpected => seq![error_line(unexpected_words())],
    }
}

/// Where a command stands: the request it waits on, with what it has to
/// remember, or its answer.
#[derive(Clone, Debug, PartialEq, Eq)]
pub enum Stage {
    CreatePermission { room_name: String, room_password: String },
    CreateExisting { room_name: String, room_password: String },
    CreateInitializing { room_name: String, room_password: String },
    CreatePassword { room_name: String, room_password: String },
    CreateCounter { room_name: String, room_password: String },
    CreateStore { room_name: String },
    DestroyPermission,
    DestroyMapping,
    DestroyRemove { room_name: String },
    StatusMapping,
    UsernameSet { username: String },
    UsernameGet,
    UsernameClear,
    Finished(Answer),
}

pub enum StageView {
    CreatePermission { room_name: Seq<char>, room_password: Seq<char> },
    CreateExisting { room_name: Seq<char>, room_password: Seq<char> },
    CreateInitializing { room_name: Seq<char>, room_password: Seq<char> },
    CreatePassword { room_name: Seq<char>, room_password: Seq<char> },
    CreateCounter { room_name: Seq<char>, room_password: Seq<char> },
    CreateStore { room_name: Seq<char> },
    DestroyPermission,
    DestroyMapping,
    DestroyRemove { room_name: Seq<char> },
    StatusMapping,
    UsernameSet { username: Seq<char> },
    UsernameGet,
    UsernameClear,
    Finished(AnswerView),
}

impl View for Stage {
    type V = StageView;

    open spec fn view(&self) -> StageView {
        match self {
            Stage::CreatePermission { room_name, room_password } => StageView::CreatePermission {
                room_name: room_name@,
                room_password: room_password@,
            },
            Stage::CreateExisting { room_name, room_password } => StageView::CreateExisting {
                room_name: room_name@,
                room_password: room_password@,
            },
            Stage::CreateInitializing {
                room_name,
                room_password,
            } => StageView::CreateInitializing {
                room_name: room_name@,
                room_password: room_password@,
            },
            Stage::CreatePassword { room_name, room_password } => StageView::CreatePassword {
                room_name: room_name@,
                room_password: room_password@,
            },
            Stage::CreateCounter { room_name, room_password } => StageView::CreateCounter {
                room_name: room_name@,
                room_password: room_password@,
            },
            Stage::CreateStore { room_name } => StageView::CreateStore { room_name: room_name@ },
            Stage::DestroyPermission => StageView::DestroyPermission,
            Stage::DestroyMapping => StageView::DestroyMapping,
            Stage::DestroyRemove { room_name } => StageView::DestroyRemove {
                room_name: room_name@,
            },
            Stage::StatusMapping => StageView::StatusMapping,
            Stage::UsernameSet { username } => StageView::UsernameSet { username: username@ },
            Stage::UsernameGet => StageView::UsernameGet,
            Stage::UsernameClear => StageView::UsernameClear,
            Stage::Finished(answer) => StageView::Finished(answer@),
        }
    }
}

/// A command that runs.
#[derive(Clone, Debug, PartialEq, Eq)]
pub struct CommandRun {
    /// The chat room of the command.
    pub room_id: String,
    /// The user who gave it.
    pub sender: String,
    pub stage: Stage,
}

pub struct CommandRunView {
    pub room_id: Seq<char>,
    pub sender: Seq<char>,
    pub stage: StageView,
}

impl View for CommandRun {
    type V = CommandRunView;

    open spec fn view(&self) -> CommandRunView {
        CommandRunView { room_id: self.room_id@, sender: self.sender@, stage: self.stage@ }
    }
}

impl CommandRunView {
    /// The command of `input` before its first move.
    pub open spec fn of(input: CommandInputView) -> CommandRunView {
        CommandRunView {
            room_id: input.room_id,
            sender: input.sender,
            stage: StageView::Finished(AnswerView::Ignored),
        }
    }

    /// The command ends with `answer` and says it.
    pub open spec fn finish(self, answer: AnswerView) -> (CommandRunView, StepView) {
        (
            CommandRunView { stage: StageView::Finished(answer), ..self },
            StepView::end(rendered(answer)),
        )
    }

    /// The command hands out `outputs` and waits on `request` at `stage`.
    pub open spec fn wait(
        self,
        stage: StageView,
        outputs: Seq<OutputView>,
        request: RequestView,
    ) -> (CommandRunView, StepView) {
        (CommandRunView { stage, ..self }, StepView::ask(outputs, request))
    }

    /// How many pieces of outside work the command may still ask for,
    /// counting the one it waits on.
    pub open spec fn steps_left(self) -> nat {
        match self.stage {
            StageView::CreatePermission { .. } => 6,
            StageView::CreateExisting { .. } => 5,
            StageView::CreateInitializing { .. } => 4,
            StageView::CreatePassword { .. } => 3,
            StageView::CreateCounter { .. } => 2,
            StageView::CreateStore { .. } => 1,
            StageView::DestroyPermission => 3,
            StageView::DestroyMapping => 2,
            StageView::DestroyRemove { .. } => 1,
            StageView::StatusMapping => 1,
            StageView::UsernameSet { .. } => 1,
            StageView::UsernameGet => 1,
            StageView::UsernameClear => 1,
            StageView::Finished(answer) => 0,
        }
    }

    /// The answer of the command, once it has ended.
    pub open spec fn answer(self) -> Option<AnswerView> {
        match self.stage {
            StageView::Finished(answer) => Some(answer),
            _ => None,
        }
    }

    /// The move of the command on `event`. A command that has ended stays
    /// as it is and hands out nothing.
    pub open spec fn advance(self, event: EventView) -> (CommandRunView, StepView) {
        match self.stage {
            StageView::Finished(answer) => (self, StepView::end(Seq::empty())),
            StageView::UsernameSet { .. } | StageView::UsernameGet | StageView::UsernameClear => {
                username::advanced(self, event)
            },
            _ => bridge::advanced(self, event),
        }
    }
}

/// Says an answer: the outputs that `rendered` names.
pub fn render(answer: &Answer) -> (outputs: Vec<Output>)
    ensures
        output_views(outputs@) == rendered(answer@),
{
    match answer {
        Answer::Pong => send_plain_message(String::from_str(get_text("pong"))),
        Answer::Bridged { room_name } => send_html_message(
            replace(get_text("room_successfully_bridged"), "{room_name}", room_name.as_str()),
        ),
        Answer::Unbridged { room_name } => send_html_message(
            replace(get_text("room_successfully_unbridged"), "{room_name}", room_name.as_str()),
        ),
        Answer::Status { room_name, message_count } => {
            let named = replace(get_text("room_status"), "{room_name}", room_name.as_str());
            let count = decimal_string(*message_count as u64);
            send_html_message(replace(named.as_str(), "{room_message_count}", count.as_str()))
        },
        Answer::UsernameSet { username } => send_html_message(
            replace(get_text("username_set_successfully"), "{username}", username.as_str()),
        ),
        Answer::UsernameCleared => send_plain_message(
            String::from_str(get_text("username_cleared_successfully")),
        ),
        Answer::Username { username } => send_html_message(
            replace(get_text("current_username"), "{username}", username.as_str()),
        ),
        Answer::Ignored => nothing(),
        Answer::MissingSubcommand(family) => {
            let choices = match family {
                Family::Bridge => "create/destroy/status",
                Family::Username => "set/get/clear",
            };
            send_html_message(replace(get_text("missing_subcommand"), "{subcommands}", choices))
        },
        Answer::MissingArguments(family) => {
            let count = match family {
                Family::Bridge => "2",
                Family::Username => "1",
            };
            let arguments = match family {
                Family::Bridge => "create <room_name> <room_password>",
                Family::Username => "set <name>",
            };
            let counted = replace(get_text("missing_arguments"), "{count}", count);
            send_html_message(replace(counted.as_str(), "{arguments}", arguments))
        },
        Answer::PermissionDenied { minimum } => {
            let level = signed_decimal_string(*minimum);
            send_plain_message(
                replace(
                    get_text("command_no_permissions"),
                    "{minimum_power_level}",
                    level.as_str(),
                ),
            )
        },
        Answer::PermissionLookupFailed { error } => after_error(
            error.as_str(),
            send_plain_message(
                replace(get_text("fetch_permissions_failed"), "{error}", error.as_str()),
            ),
        ),
        Answer::StoreError { error } => after_error(
            error.as_str(),
            send_html_message(replace(get_text("database_error"), "{error}", error.as_str())),
        ),
        Answer::CorruptRecord { error } => after_error(
            error.as_str(),
            send_html_message(
                replace(get_text("database_possibly_corrupted"), "{error}", error.as_str()),
            ),
        ),
        Answer::Unreachable { failure } => after_error(
            failure.message.as_str(),
            send_html_message(
                replace(get_text("fetch_room_failed"), "{error}", failure.message.as_str()),
            ),
        ),
        Answer::AlreadyBridged => send_plain_message(
            String::from_str(get_text("room_already_bridged")),
        ),
        Answer::NotBridged => send_plain_message(String::from_str(get_text("room_not_bridged"))),
        Answer::Initializing => send_plain_message(
            String::from_str(get_text("room_currently_initializing")),
        ),
        Answer::WrongPassword => send_plain_message(
            String::from_str(get_text("room_wrong_password")),
        ),
        Answer::UsernameNotSet => send_plain_message(
            String::from_str(get_text("username_not_set")),
        ),
        Answer::Unexpected => after_error("the event does not answer the request", nothing()),
    }
}

/// `outputs` after a line of kind `Error` that holds `message`.
fn after_error(message: &str, outputs: Vec<Output>) -> (all: Vec<Output>)
    ensures
        output_views(all@) == seq![error_line(message@)] + output_views(outputs@),
{
    let mut all = outputs;
    all.insert(0, log_error(message));
    assert(output_views(all@) =~= seq![error_line(message@)] + output_views(outputs@));
    all
}

impl CommandRun {
    /// The command of `input` before its first move.
    pub fn of(input: &CommandInput) -> (run: CommandRun)
        ensures
            run@ == CommandRunView::of(input@),
    {
        CommandRun {
            room_id: input.room_id.clone(),
            sender: input.sender.clone(),
            stage: Stage::Finished(Answer::Ignored),
        }
    }

    /// Ends the command with `answer` and says it.
    pub fn finish(self, answer: Answer) -> (moved: (CommandRun, Step))
        ensures
            (moved.0@, moved.1@) == self@.finish(answer@),
    {
        let outputs = render(&answer);
        (
            CommandRun { room_id: self.room_id, sender: self.sender, stage: Stage::Finished(answer) },
            Step::end(outputs),
        )
    }

    /// Hands out `outputs` and waits on `request` at `stage`.
    pub fn wait(self, stage: Stage, outputs: Vec<Output>, request: Request) -> (moved: (
        CommandRun,
        Step,
    ))
        ensures
            (moved.0@, moved.1@) == self@.wait(stage@, output_views(outputs@), request@),
    {
        (
            CommandRun { room_id: self.room_id, sender: self.sender, stage },
            Step::ask(outputs, request),
        )
    }

    /// Moves the command on `event`, which answers the request of its last
    /// step.
    pub fn advance(self, event: Event) -> (moved: (CommandRun, Step))
        ensures
            (moved.0@, moved.1@) == self@.advance(event@),
    {
        match &self.stage {
            Stage::Finished(answer) => {
                let outputs = nothing();
                (self, Step::end(outputs))
            },
            Stage::UsernameSet { .. } | Stage::UsernameGet | Stage::UsernameClear => {
                username::advance(self, event)
            },
            _ => bridge::advance(self, event),
        }
    }
}

/// The first move of the command `name` on `input`: that of `ping`, of
/// `bridge` or of `username`. Any other name is ignored.
pub open spec fn started(name: Seq<char>, input: CommandInputView) -> (CommandRunView, StepView) {
    if name == "ping"@ {
        basic::ping_started(input)
    } else if name == "bridge"@ {
        bridge::started(input)
    } else if name == "username"@ {
        username::started(input)
    } else {
        CommandRunView::of(input).finish(AnswerView::Ignored)
    }
}

/// Starts the command `name` on `input`.
pub fn start(name: &str, input: &CommandInput) -> (moved: (CommandRun, Step))
    ensures
        (moved.0@, moved.1@) == started(name@, input@),
{
    if same(name, "ping") {
        basic::ping_command(input)
    } else if same(name, "bridge") {
        bridge::bridge_command(input)
    } else if same(name, "username") {
        username::username_command(input)
    } else {
        CommandRun::of(input).finish(Answer::Ignored)
    }
}

} // verus!

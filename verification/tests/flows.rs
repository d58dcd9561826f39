use netchat_bridge::commands::{self, Answer, CommandInput, CommandRun, Family, Stage};
use netchat_bridge::events::{on_room_message, Flow, RoomMessage};
use netchat_bridge::exchange::{Event, LogMessageType, Output, Request, Step, Stored};
use netchat_bridge::forward::{
    bridge_matrix_messages, bridge_netchat_messages, delivered, ForwardRun,
};
use netchat_bridge::keys::{bridge_key_of, bridged_room, room_id_of, username_key_of};
use netchat_bridge::netchat::{ErrorKind, NetchatError, Reply};
use netchat_bridge::poll::{format_message, PollRun};
use netchat_bridge::{BridgedRoomData, MatrixBridgeMessage, NetChatBridgeMessage};
use std::collections::BTreeMap;

/// A stand-in for what surrounds the bridge.
struct World {
    store: BTreeMap<String, String>,
    power_level: Option<i64>,
    display_name: Option<String>,
    initializing: bool,
    password: String,
    counter: usize,
    messages: Vec<String>,
    store_fails: bool,
    room_fails: bool,
    asked: Vec<Request>,
}

fn world() -> World {
    World {
        store: BTreeMap::new(),
        power_level: Some(100),
        display_name: Some("Display".to_string()),
        initializing: false,
        password: "secret".to_string(),
        counter: 0,
        messages: Vec::new(),
        store_fails: false,
        room_fails: false,
        asked: Vec::new(),
    }
}

fn encode(data: &BridgedRoomData) -> String {
    format!("{}\n{}\n{}", data.room_name, data.room_password, data.message_count)
}

fn decode(text: &str) -> Stored {
    let parts: Vec<&str> = text.split('\n').collect();
    if parts.len() != 3 {
        return Stored::Corrupt("not three lines".to_string());
    }
    match parts[2].parse::<usize>() {
        Ok(count) => Stored::Present(BridgedRoomData::new(
            parts[0].to_string(),
            parts[1].to_string(),
            count,
        )),
        Err(_) => Stored::Corrupt("no count".to_string()),
    }
}

fn down() -> NetchatError {
    NetchatError { kind: ErrorKind::ServerError, message: "down".to_string() }
}

impl World {
    fn stored(&self, key: &str) -> Stored {
        match self.store.get(key) {
            None => Stored::Absent,
            Some(text) => decode(text),
        }
    }

    fn cursor(&self, room_id: &str) -> Option<usize> {
        match self.stored(&bridge_key_of(room_id)) {
            Stored::Present(data) => Some(data.message_count),
            _ => None,
        }
    }

    fn answer(&mut self, request: Request) -> Event {
        self.asked.push(request.clone());
        match request {
            Request::PowerLevel { .. } => Event::PowerLevel(self.power_level),
            Request::DisplayName { .. } => Event::DisplayName(self.display_name.clone()),
            Request::LoadMapping { key } => {
                if self.store_fails {
                    Event::StoreFailed("disk full".to_string())
                } else {
                    Event::Mapping(self.stored(&key))
                }
            }
            Request::SaveMapping { key, data } => {
                if self.store_fails {
                    Event::StoreFailed("disk full".to_string())
                } else {
                    self.store.insert(key, encode(&data));
                    Event::Written
                }
            }
            Request::LoadName { key } => {
                if self.store_fails {
                    Event::StoreFailed("disk full".to_string())
                } else {
                    Event::Name(self.store.get(&key).cloned())
                }
            }
            Request::SaveName { key, name } => {
                if self.store_fails {
                    Event::StoreFailed("disk full".to_string())
                } else {
                    self.store.insert(key, name);
                    Event::Written
                }
            }
            Request::Remove { key } => {
                if self.store_fails {
                    Event::StoreFailed("disk full".to_string())
                } else {
                    self.store.remove(&key);
                    Event::Written
                }
            }
            Request::Initializing { .. } => {
                if self.room_fails {
                    Event::RoomFailed(down())
                } else {
                    Event::Flag(self.initializing)
                }
            }
            Request::CheckPassword { room_password, .. } => {
                if self.room_fails {
                    Event::RoomFailed(down())
                } else {
                    Event::Flag(room_password == self.password)
                }
            }
            Request::MessageCount { .. } => {
                if self.room_fails {
                    Event::RoomFailed(down())
                } else {
                    Event::Count(self.counter)
                }
            }
            Request::Messages { .. } => {
                if self.room_fails {
                    Event::RoomFailed(down())
                } else {
                    Event::Messages(self.messages.clone())
                }
            }
        }
    }

    fn command(&mut self, name: &str, arguments: &[&str]) -> (Answer, Vec<Output>) {
        let input = CommandInput {
            room_id: "room1".to_string(),
            sender: "@alice:example.org".to_string(),
            arguments: arguments.iter().map(|argument| argument.to_string()).collect(),
        };
        let (mut run, mut step) = commands::start(name, &input);
        let mut outputs = Vec::new();
        loop {
            outputs.append(&mut step.outputs);
            match step.request {
                None => break,
                Some(request) => {
                    let event = self.answer(request);
                    let moved = run.advance(event);
                    run = moved.0;
                    step = moved.1;
                }
            }
        }
        match run.stage {
            Stage::Finished(answer) => (answer, outputs),
            stage => panic!("the command stopped at {:?}", stage),
        }
    }

    fn forward(&mut self, sender: &str, body: &str) -> Vec<Output> {
        let (mut run, mut step) =
            ForwardRun::start("room1".to_string(), sender.to_string(), body.to_string());
        let mut outputs = Vec::new();
        loop {
            outputs.append(&mut step.outputs);
            match step.request {
                None => break,
                Some(request) => {
                    let event = self.answer(request);
                    let moved = run.advance(event);
                    run = moved.0;
                    step = moved.1;
                }
            }
        }
        outputs
    }

    fn poll(&mut self) -> Vec<Output> {
        let entries: Vec<(String, String)> =
            self.store.iter().map(|(key, value)| (key.clone(), value.clone())).collect();
        let mut outputs = Vec::new();
        for (key, value) in entries {
            let (mut run, mut step) = PollRun::start(key, decode(&value));
            loop {
                outputs.append(&mut step.outputs);
                match step.request {
                    None => break,
                    Some(request) => {
                        let event = self.answer(request);
                        let moved = run.advance(event);
                        run = moved.0;
                        step = moved.1;
                    }
                }
            }
        }
        outputs
    }
}

fn said(outputs: &[Output]) -> Vec<String> {
    outputs
        .iter()
        .filter_map(|output| match output {
            Output::Plain(content) | Output::Html(content) => Some(content.clone()),
            _ => None,
        })
        .collect()
}

fn inbound(outputs: &[Output]) -> Vec<NetChatBridgeMessage> {
    outputs
        .iter()
        .filter_map(|output| match output {
            Output::Inbound(message) => Some(message.clone()),
            _ => None,
        })
        .collect()
}

fn outbound(outputs: &[Output]) -> Vec<MatrixBridgeMessage> {
    outputs
        .iter()
        .filter_map(|output| match output {
            Output::Outbound(message) => Some(message.clone()),
            _ => None,
        })
        .collect()
}

fn stamped(count: usize) -> Vec<String> {
    (0..count).map(|index| format!("[2023-01-01 00:00:{:02}] user: message {}", index, index)).collect()
}

#[test]
fn ping_says_pong() {
    let mut world = world();
    let (answer, outputs) = world.command("ping", &[]);
    assert_eq!(answer, Answer::Pong);
    assert_eq!(outputs, vec![Output::Plain("🏓 Pong!".to_string()), Output::Typing(false)]);
    assert!(world.asked.is_empty());
}

#[test]
fn unknown_command_is_ignored() {
    let mut world = world();
    let (answer, outputs) = world.command("dance", &["now"]);
    assert_eq!(answer, Answer::Ignored);
    assert!(outputs.is_empty());
    let (answer, outputs) = world.command("bridge", &["dance"]);
    assert_eq!(answer, Answer::Ignored);
    assert!(outputs.is_empty());
    let (answer, outputs) = world.command("username", &["dance"]);
    assert_eq!(answer, Answer::Ignored);
    assert!(outputs.is_empty());
    assert!(world.asked.is_empty());
}

#[test]
fn missing_subcommand_and_arguments_are_told() {
    let mut world = world();
    let (answer, outputs) = world.command("bridge", &[]);
    assert_eq!(answer, Answer::MissingSubcommand(Family::Bridge));
    assert_eq!(
        said(&outputs),
        vec!["This command requires a subcommand! Valid choices are <b>create/destroy/status</b>."]
    );
    let (answer, outputs) = world.command("username", &[]);
    assert_eq!(answer, Answer::MissingSubcommand(Family::Username));
    assert_eq!(
        said(&outputs),
        vec!["This command requires a subcommand! Valid choices are <b>set/get/clear</b>."]
    );
    let (answer, outputs) = world.command("bridge", &["create", "lobby"]);
    assert_eq!(answer, Answer::MissingArguments(Family::Bridge));
    assert_eq!(
        said(&outputs),
        vec!["You did not supply enough arguments! This command requires at least <b>2 argument(s)</b> (create <room_name> <room_password>)."]
    );
    let (answer, outputs) = world.command("username", &["set"]);
    assert_eq!(answer, Answer::MissingArguments(Family::Username));
    assert_eq!(
        said(&outputs),
        vec!["You did not supply enough arguments! This command requires at least <b>1 argument(s)</b> (set <name>)."]
    );
    assert!(world.asked.is_empty());
    assert!(world.store.is_empty());
}

#[test]
fn create_stores_the_counter_as_cursor() {
    let mut world = world();
    world.counter = 5;
    let (answer, outputs) = world.command("bridge", &["create", "lobby", "secret"]);
    assert_eq!(answer, Answer::Bridged { room_name: "lobby".to_string() });
    assert_eq!(
        outputs,
        vec![
            Output::Typing(true),
            Output::Html("This Matrix room has been successfully bridged to <b>lobby</b>.".to_string()),
            Output::Typing(false),
        ]
    );
    assert_eq!(
        world.stored("bridge.room1"),
        Stored::Present(BridgedRoomData::new("lobby".to_string(), "secret".to_string(), 5))
    );
    assert_eq!(world.store.len(), 1);
    assert_eq!(
        world.asked,
        vec![
            Request::PowerLevel {
                room_id: "room1".to_string(),
                user_id: "@alice:example.org".to_string()
            },
            Request::LoadMapping { key: "bridge.room1".to_string() },
            Request::Initializing {
                room_name: "lobby".to_string(),
                room_password: "secret".to_string()
            },
            Request::CheckPassword {
                room_name: "lobby".to_string(),
                room_password: "secret".to_string()
            },
            Request::MessageCount {
                room_name: "lobby".to_string(),
                room_password: "secret".to_string()
            },
            Request::SaveMapping {
                key: "bridge.room1".to_string(),
                data: BridgedRoomData::new("lobby".to_string(), "secret".to_string(), 5),
            },
        ]
    );
}

#[test]
fn second_create_is_refused_and_keeps_the_cursor() {
    let mut world = world();
    world.counter = 5;
    let (answer, _) = world.command("bridge", &["create", "lobby", "secret"]);
    assert_eq!(answer, Answer::Bridged { room_name: "lobby".to_string() });
    world.counter = 9;
    let before = world.store.clone();
    let (answer, outputs) = world.command("bridge", &["create", "lobby", "secret"]);
    assert_eq!(answer, Answer::AlreadyBridged);
    assert_eq!(
        said(&outputs),
        vec!["Hmm, seems like this room has already been bridged. You can use the \"unbridge\" command to unbridge this room and try again."]
    );
    assert_eq!(world.store, before);
    assert_eq!(world.cursor("room1"), Some(5));
}

#[test]
fn create_over_a_corrupt_record_is_refused_too() {
    let mut world = world();
    world.store.insert("bridge.room1".to_string(), "garbage".to_string());
    let (answer, _) = world.command("bridge", &["create", "lobby", "secret"]);
    assert_eq!(answer, Answer::AlreadyBridged);
    assert_eq!(world.store.get("bridge.room1"), Some(&"garbage".to_string()));
}

#[test]
fn create_needs_the_highest_tier() {
    let mut world = world();
    world.power_level = Some(99);
    let (answer, outputs) = world.command("bridge", &["create", "lobby", "secret"]);
    assert_eq!(answer, Answer::PermissionDenied { minimum: 100 });
    assert_eq!(
        said(&outputs),
        vec!["You do not have the permissions to use this command! This command requires power level <code>100</code>."]
    );
    assert!(world.store.is_empty());
    assert_eq!(world.asked.len(), 1);
}

#[test]
fn failed_lookup_denies_and_says_so() {
    let mut world = world();
    world.power_level = None;
    for subcommand in [vec!["create", "lobby", "secret"], vec!["destroy"]] {
        let (answer, outputs) = world.command("bridge", &subcommand);
        assert_eq!(
            answer,
            Answer::PermissionLookupFailed { error: "member somehow does not exist".to_string() }
        );
        assert_eq!(
            outputs[0],
            Output::Log {
                kind: LogMessageType::Error,
                message: "member somehow does not exist".to_string()
            }
        );
        assert_eq!(
            said(&outputs),
            vec!["Uh oh! An error occurred while fetching your room permissions (<code>member somehow does not exist</code>). For safety reasons, you have been denied access to use this command."]
        );
    }
    assert!(world.store.is_empty());
}

#[test]
fn lookup_that_fails_is_no_permission() {
    let input = CommandInput {
        room_id: "room1".to_string(),
        sender: "@alice:example.org".to_string(),
        arguments: vec!["destroy".to_string()],
    };
    let (run, step) = commands::bridge::bridge_command(&input);
    assert!(step.outputs.is_empty());
    let (run, step) = run.advance(Event::LookupFailed("offline".to_string()));
    assert_eq!(step.request, None);
    assert_eq!(
        run.stage,
        Stage::Finished(Answer::PermissionLookupFailed {
            error: "unable to get member: offline".to_string()
        })
    );
}

#[test]
fn create_stops_at_an_initializing_room() {
    let mut world = world();
    world.initializing = true;
    let (answer, outputs) = world.command("bridge", &["create", "lobby", "secret"]);
    assert_eq!(answer, Answer::Initializing);
    assert_eq!(
        said(&outputs),
        vec!["Seems like that NetChat room is currently being initialized. Please try again in a few minutes."]
    );
    assert!(world.store.is_empty());
    assert_eq!(world.asked.len(), 3);
}

#[test]
fn create_stops_at_a_wrong_password() {
    let mut world = world();
    let (answer, outputs) = world.command("bridge", &["create", "lobby", "guess"]);
    assert_eq!(answer, Answer::WrongPassword);
    assert_eq!(
        said(&outputs),
        vec!["Hmm, I can't seem to access that room, maybe the password you supplied is wrong?"]
    );
    assert!(world.store.is_empty());
    assert_eq!(world.asked.len(), 4);
}

#[test]
fn create_stops_where_the_room_service_fails() {
    let mut world = world();
    world.room_fails = true;
    let (answer, outputs) = world.command("bridge", &["create", "lobby", "secret"]);
    assert_eq!(answer, Answer::Unreachable { failure: down() });
    assert_eq!(
        outputs,
        vec![
            Output::Typing(true),
            Output::Log { kind: LogMessageType::Error, message: "down".to_string() },
            Output::Html("Uh oh! An error occurred while fetching that NetChat room (<code>down</code>). Please try again later.".to_string()),
            Output::Typing(false),
        ]
    );
    assert!(world.store.is_empty());
}

#[test]
fn store_failure_ends_the_command() {
    let mut world = world();
    world.store_fails = true;
    for (name, arguments) in [
        ("bridge", vec!["create", "lobby", "secret"]),
        ("bridge", vec!["destroy"]),
        ("bridge", vec!["status"]),
        ("username", vec!["set", "Alice"]),
        ("username", vec!["get"]),
        ("username", vec!["clear"]),
    ] {
        let (answer, outputs) = world.command(name, &arguments);
        assert_eq!(answer, Answer::StoreError { error: "disk full".to_string() });
        assert_eq!(
            said(&outputs),
            vec!["Uh oh! Something went wrong while interacting with the database (<code>disk full</code>). Please try again later."]
        );
    }
    assert!(world.store.is_empty());
}

#[test]
fn destroy_after_create_leaves_no_bridge() {
    let mut world = world();
    world.counter = 3;
    world.command("bridge", &["create", "lobby", "secret"]);
    let (answer, outputs) = world.command("bridge", &["destroy"]);
    assert_eq!(answer, Answer::Unbridged { room_name: "lobby".to_string() });
    assert_eq!(
        said(&outputs),
        vec!["This Matrix room has been successfully unbridged from <b>lobby</b>."]
    );
    assert!(world.store.is_empty());
    let (answer, outputs) = world.command("bridge", &["status"]);
    assert_eq!(answer, Answer::NotBridged);
    assert_eq!(
        said(&outputs),
        vec!["This Matrix room is currently not bridged to any NetChat room."]
    );
    let (answer, _) = world.command("bridge", &["destroy"]);
    assert_eq!(answer, Answer::NotBridged);
}

#[test]
fn destroy_needs_the_highest_tier() {
    let mut world = world();
    world.command("bridge", &["create", "lobby", "secret"]);
    world.power_level = Some(50);
    let (answer, _) = world.command("bridge", &["destroy"]);
    assert_eq!(answer, Answer::PermissionDenied { minimum: 100 });
    assert_eq!(world.store.len(), 1);
}

#[test]
fn status_tells_room_and_cursor() {
    let mut world = world();
    world.counter = 12;
    world.command("bridge", &["create", "lobby", "secret"]);
    world.power_level = Some(0);
    for word in ["status", "info", "information"] {
        let (answer, outputs) = world.command("bridge", &[word]);
        assert_eq!(answer, Answer::Status { room_name: "lobby".to_string(), message_count: 12 });
        assert_eq!(
            said(&outputs),
            vec!["This Matrix room is currently bridged to <b>lobby</b> (<b>12</b> messages)."]
        );
    }
}

#[test]
fn corrupt_record_is_told_and_kept() {
    let mut world = world();
    world.store.insert("bridge.room1".to_string(), "garbage".to_string());
    for word in ["status", "destroy"] {
        let (answer, outputs) = world.command("bridge", &[word]);
        assert_eq!(answer, Answer::CorruptRecord { error: "not three lines".to_string() });
        assert_eq!(
            outputs[0],
            Output::Log { kind: LogMessageType::Error, message: "not three lines".to_string() }
        );
        assert_eq!(
            said(&outputs),
            vec!["Uh oh! Something went wrong while processing data from the database (<code>not three lines</code>). This issue might be resolved later."]
        );
        assert_eq!(world.store.get("bridge.room1"), Some(&"garbage".to_string()));
    }
}

#[test]
fn username_set_get_clear() {
    let mut world = world();
    let (answer, outputs) = world.command("username", &["get"]);
    assert_eq!(answer, Answer::UsernameNotSet);
    assert_eq!(said(&outputs), vec!["You do not have a NetChat username for this room."]);
    let (answer, outputs) = world.command("username", &["set", "Alice"]);
    assert_eq!(answer, Answer::UsernameSet { username: "Alice".to_string() });
    assert_eq!(
        said(&outputs),
        vec!["Your NetChat username for this room has been successfully set to <b>Alice</b>."]
    );
    assert_eq!(
        world.store.get("username.room1.@alice:example.org"),
        Some(&"Alice".to_string())
    );
    let (answer, outputs) = world.command("username", &["get"]);
    assert_eq!(answer, Answer::Username { username: "Alice".to_string() });
    assert_eq!(said(&outputs), vec!["Your NetChat username for this room is <b>Alice</b>."]);
    let (answer, outputs) = world.command("username", &["clear"]);
    assert_eq!(answer, Answer::UsernameCleared);
    assert_eq!(
        said(&outputs),
        vec!["Your NetChat username for this room has been successfully cleared. Your NetChat messages will now send as your Matrix display name."]
    );
    assert!(world.store.is_empty());
    let (answer, _) = world.command("username", &["get"]);
    assert_eq!(answer, Answer::UsernameNotSet);
}

#[test]
fn username_needs_no_power_level_and_no_bridge() {
    let mut world = world();
    world.power_level = Some(0);
    let (answer, _) = world.command("username", &["set", "Alice"]);
    assert_eq!(answer, Answer::UsernameSet { username: "Alice".to_string() });
    assert!(world.asked.iter().all(|request| !matches!(request, Request::PowerLevel { .. })));
}

#[test]
fn event_that_answers_nothing_ends_the_command() {
    let input = CommandInput {
        room_id: "room1".to_string(),
        sender: "@alice:example.org".to_string(),
        arguments: vec!["status".to_string()],
    };
    let (run, _) = commands::bridge::bridge_command(&input);
    let (run, step) = run.advance(Event::Flag(true));
    assert_eq!(run.stage, Stage::Finished(Answer::Unexpected));
    assert_eq!(
        step.outputs,
        vec![Output::Log {
            kind: LogMessageType::Error,
            message: "the event does not answer the request".to_string()
        }]
    );
    let (run, step) = run.advance(Event::Written);
    assert_eq!(run.stage, Stage::Finished(Answer::Unexpected));
    assert_eq!(step, Step { outputs: Vec::new(), request: None });
}

#[test]
fn command_run_of_input_remembers_room_and_sender() {
    let input = CommandInput {
        room_id: "room1".to_string(),
        sender: "@alice:example.org".to_string(),
        arguments: Vec::new(),
    };
    let run = CommandRun::of(&input);
    assert_eq!(run.room_id, "room1");
    assert_eq!(run.sender, "@alice:example.org");
    assert_eq!(run.stage, Stage::Finished(Answer::Ignored));
}

#[test]
fn end_to_end_create_then_poll_forwards_the_new_messages() {
    let mut world = world();
    world.counter = 5;
    world.messages = stamped(5);
    let (answer, _) = world.command("bridge", &["create", "room1", "secret"]);
    assert_eq!(answer, Answer::Bridged { room_name: "room1".to_string() });
    assert_eq!(world.cursor("room1"), Some(5));

    world.counter = 7;
    world.messages = stamped(7);
    let outputs = world.poll();
    assert_eq!(
        outputs,
        vec![
            Output::Inbound(NetChatBridgeMessage {
                content: "<b>[2023-01-01 00:00:05]</b> user: message 5".to_string(),
                matrix_room_id: "room1".to_string(),
            }),
            Output::Inbound(NetChatBridgeMessage {
                content: "<b>[2023-01-01 00:00:06]</b> user: message 6".to_string(),
                matrix_room_id: "room1".to_string(),
            }),
        ]
    );
    assert_eq!(world.cursor("room1"), Some(7));

    let outputs = world.poll();
    assert!(outputs.is_empty());
    assert_eq!(world.cursor("room1"), Some(7));
}

#[test]
fn poll_forwards_up_to_the_counter_only() {
    let mut world = world();
    world.counter = 1;
    world.command("bridge", &["create", "lobby", "secret"]);
    world.counter = 3;
    world.messages = stamped(6);
    let outputs = world.poll();
    assert_eq!(inbound(&outputs).len(), 2);
    assert_eq!(inbound(&outputs)[0].content, "<b>[2023-01-01 00:00:01]</b> user: message 1");
    assert_eq!(inbound(&outputs)[1].content, "<b>[2023-01-01 00:00:02]</b> user: message 2");
    assert_eq!(world.cursor("room1"), Some(3));
}

#[test]
fn poll_follows_a_counter_that_fell() {
    let mut world = world();
    world.counter = 9;
    world.command("bridge", &["create", "lobby", "secret"]);
    world.counter = 4;
    world.messages = stamped(4);
    let outputs = world.poll();
    assert_eq!(
        outputs,
        vec![Output::Log {
            kind: LogMessageType::Warning,
            message: "the message counter fell below the cursor, which now follows it, for room1"
                .to_string(),
        }]
    );
    assert_eq!(world.cursor("room1"), Some(4));
    world.counter = 5;
    world.messages = stamped(5);
    let outputs = world.poll();
    assert_eq!(inbound(&outputs).len(), 1);
    assert_eq!(world.cursor("room1"), Some(5));
}

#[test]
fn poll_keeps_the_cursor_on_failure() {
    let mut world = world();
    world.counter = 2;
    world.command("bridge", &["create", "lobby", "secret"]);
    world.counter = 4;
    world.messages = stamped(4);
    world.room_fails = true;
    let outputs = world.poll();
    assert_eq!(
        outputs,
        vec![Output::Log { kind: LogMessageType::Error, message: "down".to_string() }]
    );
    assert_eq!(world.cursor("room1"), Some(2));
    world.room_fails = false;
    world.messages = stamped(3);
    let outputs = world.poll();
    assert_eq!(
        outputs,
        vec![Output::Log {
            kind: LogMessageType::Error,
            message: "the room service gave fewer messages than it counted".to_string()
        }]
    );
    assert_eq!(world.cursor("room1"), Some(2));
    world.messages = stamped(4);
    let outputs = world.poll();
    assert_eq!(inbound(&outputs).len(), 2);
    assert_eq!(world.cursor("room1"), Some(4));
}

#[test]
fn poll_enqueues_before_it_stores_and_logs_a_failed_store() {
    let (run, step) = PollRun::start(
        "bridge.room1".to_string(),
        Stored::Present(BridgedRoomData::new("lobby".to_string(), "secret".to_string(), 0)),
    );
    assert_eq!(
        step.request,
        Some(Request::MessageCount {
            room_name: "lobby".to_string(),
            room_password: "secret".to_string()
        })
    );
    let (run, step) = run.advance(Event::Count(1));
    assert_eq!(
        step.request,
        Some(Request::Messages {
            room_name: "lobby".to_string(),
            room_password: "secret".to_string()
        })
    );
    let (run, step) = run.advance(Event::Messages(stamped(1)));
    assert_eq!(inbound(&step.outputs).len(), 1);
    assert_eq!(
        step.request,
        Some(Request::SaveMapping {
            key: "bridge.room1".to_string(),
            data: BridgedRoomData::new("lobby".to_string(), "secret".to_string(), 1),
        })
    );
    let (_, step) = run.advance(Event::StoreFailed("disk full".to_string()));
    assert_eq!(
        step,
        Step {
            outputs: vec![Output::Log {
                kind: LogMessageType::Error,
                message: "disk full".to_string()
            }],
            request: None,
        }
    );
}

#[test]
fn poll_passes_over_other_entries_and_skips_corrupt_ones() {
    let mut world = world();
    world.store.insert("username.room1.@alice:example.org".to_string(), "Alice".to_string());
    world.store.insert("bridge.room2".to_string(), "garbage".to_string());
    world.counter = 3;
    world.messages = stamped(3);
    let outputs = world.poll();
    assert_eq!(
        outputs,
        vec![Output::Log { kind: LogMessageType::Error, message: "not three lines".to_string() }]
    );
    assert!(world.asked.is_empty());
    assert_eq!(world.store.get("bridge.room2"), Some(&"garbage".to_string()));
}

#[test]
fn time_stamp_stands_in_bold() {
    assert_eq!(
        format_message("[1970-01-01 00:00:00] hello"),
        "<b>[1970-01-01 00:00:00]</b> hello"
    );
    assert_eq!(format_message("[1970-01-01 00:00:00]"), "<b>[1970-01-01 00:00:00]</b>");
    assert_eq!(format_message("short"), "<b>short</b>");
    assert_eq!(format_message(""), "<b></b>");
}

#[test]
fn keys_of_the_store() {
    assert_eq!(bridge_key_of("!abc:example.org"), "bridge.!abc:example.org");
    assert_eq!(
        username_key_of("!abc:example.org", "@alice:example.org"),
        "username.!abc:example.org.@alice:example.org"
    );
    assert_eq!(bridged_room("bridge.!abc:example.org"), Some("!abc:example.org".to_string()));
    assert_eq!(bridged_room("bridge."), Some(String::new()));
    assert_eq!(bridged_room("username.a.b"), None);
    assert_eq!(bridged_room("bridge"), None);
    assert_eq!(room_id_of("bridge.room1"), "room1");
    assert_eq!(room_id_of("short"), "");
}

#[test]
fn chosen_name_goes_out_and_cleared_name_falls_back() {
    let mut world = world();
    world.counter = 2;
    world.command("bridge", &["create", "lobby", "secret"]);
    world.command("username", &["set", "Alice"]);
    let outputs = world.forward("@alice:example.org", "hello");
    assert_eq!(
        outputs,
        vec![
            Output::Outbound(MatrixBridgeMessage {
                netchat_room_name: "lobby".to_string(),
                netchat_room_password: "secret".to_string(),
                netchat_username: "Alice".to_string(),
                netchat_message: "hello".to_string(),
            }),
            Output::ReadReceipt,
        ]
    );
    world.command("username", &["clear"]);
    let outputs = world.forward("@alice:example.org", "again");
    assert_eq!(outbound(&outputs)[0].netchat_username, "Display");
    assert_eq!(outbound(&outputs)[0].netchat_message, "again");
    world.display_name = None;
    let outputs = world.forward("@alice:example.org", "third");
    assert_eq!(outbound(&outputs)[0].netchat_username, "@alice:example.org");
}

#[test]
fn name_of_one_user_is_not_that_of_another() {
    let mut world = world();
    world.command("bridge", &["create", "lobby", "secret"]);
    world.command("username", &["set", "Alice"]);
    let outputs = world.forward("@bob:example.org", "hello");
    assert_eq!(outbound(&outputs)[0].netchat_username, "Display");
}

#[test]
fn forwarding_leaves_the_store_as_it_was() {
    let mut world = world();
    world.counter = 2;
    world.command("bridge", &["create", "lobby", "secret"]);
    world.command("username", &["set", "Alice"]);
    let before = world.store.clone();
    world.asked.clear();
    let outputs = world.forward("@alice:example.org", "hello");
    assert_eq!(outbound(&outputs).len(), 1);
    assert_eq!(world.store, before);
    assert_eq!(world.cursor("room1"), Some(2));
    assert_eq!(
        world.asked,
        vec![
            Request::LoadMapping { key: "bridge.room1".to_string() },
            Request::LoadName { key: "username.room1.@alice:example.org".to_string() },
        ]
    );
    world.asked.clear();
    world.forward("@bob:example.org", "hello");
    assert_eq!(world.store, before);
    assert_eq!(
        world.asked,
        vec![
            Request::LoadMapping { key: "bridge.room1".to_string() },
            Request::LoadName { key: "username.room1.@bob:example.org".to_string() },
            Request::DisplayName {
                room_id: "room1".to_string(),
                user_id: "@bob:example.org".to_string()
            },
        ]
    );
}

#[test]
fn forwarding_ends_with_the_message_and_the_read_receipt() {
    let (run, _) = ForwardRun::start(
        "room1".to_string(),
        "@alice:example.org".to_string(),
        "hello".to_string(),
    );
    let (run, _) = run.advance(Event::Mapping(Stored::Present(BridgedRoomData::new(
        "lobby".to_string(),
        "secret".to_string(),
        usize::MAX,
    ))));
    let (run, step) = run.advance(Event::Name(Some("Alice".to_string())));
    assert_eq!(
        step,
        Step {
            outputs: vec![
                Output::Outbound(MatrixBridgeMessage {
                    netchat_room_name: "lobby".to_string(),
                    netchat_room_password: "secret".to_string(),
                    netchat_username: "Alice".to_string(),
                    netchat_message: "hello".to_string(),
                }),
                Output::ReadReceipt,
            ],
            request: None,
        }
    );
    let (_, step) = run.advance(Event::Written);
    assert_eq!(step, Step { outputs: Vec::new(), request: None });
}

#[test]
fn unbridged_room_forwards_nothing() {
    let mut world = world();
    let outputs = world.forward("@alice:example.org", "hello");
    assert!(outputs.is_empty());
    assert_eq!(world.asked, vec![Request::LoadMapping { key: "bridge.room1".to_string() }]);
}

#[test]
fn forwarding_logs_what_fails_on_the_way() {
    let mut world = world();
    world.store.insert("bridge.room1".to_string(), "garbage".to_string());
    assert_eq!(
        world.forward("@alice:example.org", "hello"),
        vec![Output::Log { kind: LogMessageType::Error, message: "not three lines".to_string() }]
    );
    world.store_fails = true;
    assert_eq!(
        world.forward("@alice:example.org", "hello"),
        vec![Output::Log { kind: LogMessageType::Error, message: "disk full".to_string() }]
    );

    let data = BridgedRoomData::new("lobby".to_string(), "secret".to_string(), 1);
    let (run, _) = ForwardRun::start(
        "room1".to_string(),
        "@alice:example.org".to_string(),
        "hello".to_string(),
    );
    let (run, _) = run.advance(Event::Mapping(Stored::Present(data)));
    let (run, step) = run.advance(Event::StoreFailed("disk full".to_string()));
    assert_eq!(
        step,
        Step {
            outputs: vec![Output::Log {
                kind: LogMessageType::Error,
                message: "disk full".to_string()
            }],
            request: Some(Request::DisplayName {
                room_id: "room1".to_string(),
                user_id: "@alice:example.org".to_string()
            }),
        }
    );
    let (_, step) = run.advance(Event::LookupFailed("offline".to_string()));
    assert_eq!(
        step,
        Step {
            outputs: vec![
                Output::Log { kind: LogMessageType::Error, message: "offline".to_string() },
                Output::Outbound(MatrixBridgeMessage {
                    netchat_room_name: "lobby".to_string(),
                    netchat_room_password: "secret".to_string(),
                    netchat_username: "@alice:example.org".to_string(),
                    netchat_message: "hello".to_string(),
                }),
                Output::ReadReceipt,
            ],
            request: None,
        }
    );
}

#[test]
fn inbound_message_goes_to_its_joined_room_or_nowhere() {
    let joined = vec!["room0".to_string(), "room1".to_string(), "room1".to_string()];
    let message =
        NetChatBridgeMessage { content: "<b>x</b>".to_string(), matrix_room_id: "room1".to_string() };
    assert_eq!(bridge_netchat_messages(&joined, &message), Some(1));
    let elsewhere =
        NetChatBridgeMessage { content: "<b>x</b>".to_string(), matrix_room_id: "room9".to_string() };
    assert_eq!(bridge_netchat_messages(&joined, &elsewhere), None);
    assert_eq!(bridge_netchat_messages(&Vec::new(), &message), None);
}

#[test]
fn outbound_message_is_delivered_once() {
    let message = MatrixBridgeMessage {
        netchat_room_name: "lobby".to_string(),
        netchat_room_password: "secret".to_string(),
        netchat_username: "Alice & Bob".to_string(),
        netchat_message: "what?\nwhy#".to_string(),
    };
    assert_eq!(
        bridge_matrix_messages(&message),
        "https://netchat.repl.co/secret/lobby/:FFFFFF/:000000/send/Alice ||AMP|| Bob/what||QUE||||NEWL||why||HAS||"
    );
    assert!(delivered(Reply::Read(200, String::new())).is_empty());
    assert_eq!(
        delivered(Reply::Read(429, String::new())),
        vec![Output::Log {
            kind: LogMessageType::Error,
            message: "encountered ratelimit while sending message".to_string()
        }]
    );
    assert_eq!(
        delivered(Reply::Unsent("timed out".to_string())),
        vec![Output::Log {
            kind: LogMessageType::Error,
            message: "failed to send GET request: timed out".to_string()
        }]
    );
}

fn message(body: &str) -> RoomMessage {
    RoomMessage {
        room_id: "room1".to_string(),
        sender: "@alice:example.org".to_string(),
        body: body.to_string(),
        own: false,
        joined: true,
        text: true,
    }
}

#[test]
fn prefixed_text_is_a_command() {
    let (flow, step) = on_room_message(message("!ping"), "!");
    assert_eq!(step.outputs, vec![Output::Plain("🏓 Pong!".to_string()), Output::Typing(false)]);
    assert_eq!(step.request, None);
    match flow {
        Flow::Command(run) => assert_eq!(run.stage, Stage::Finished(Answer::Pong)),
        other => panic!("no command: {:?}", other),
    }
    let (flow, step) = on_room_message(message("!bridge create \"my room\" secret"), "!");
    assert_eq!(
        step.request,
        Some(Request::PowerLevel {
            room_id: "room1".to_string(),
            user_id: "@alice:example.org".to_string()
        })
    );
    match flow {
        Flow::Command(run) => assert_eq!(
            run.stage,
            Stage::CreatePermission {
                room_name: "my room".to_string(),
                room_password: "secret".to_string()
            }
        ),
        other => panic!("no command: {:?}", other),
    }
}

#[test]
fn prefix_alone_is_no_command() {
    let (flow, step) = on_room_message(message("!"), "!");
    assert_eq!(flow, Flow::Idle);
    assert_eq!(step, Step { outputs: Vec::new(), request: None });
    let (flow, _) = on_room_message(message("!   "), "!");
    assert_eq!(flow, Flow::Idle);
}

#[test]
fn other_text_is_forwarded() {
    let (flow, step) = on_room_message(message("hello there"), "!");
    assert_eq!(step.request, Some(Request::LoadMapping { key: "bridge.room1".to_string() }));
    match flow {
        Flow::Forward(run) => assert_eq!(run.body, "hello there"),
        other => panic!("no forwarding: {:?}", other),
    }
}

#[test]
fn own_messages_and_other_kinds_set_nothing_going() {
    let mut own = message("hello");
    own.own = true;
    assert_eq!(on_room_message(own, "!").0, Flow::Idle);
    let mut away = message("!ping");
    away.joined = false;
    assert_eq!(on_room_message(away, "!").0, Flow::Idle);
    let mut image = message("hello");
    image.text = false;
    assert_eq!(on_room_message(image, "!").0, Flow::Idle);
}

#[test]
fn flow_moves_as_its_run_moves() {
    let (flow, _) = on_room_message(message("!bridge status"), "!");
    let (flow, step) = flow.advance(Event::Mapping(Stored::Absent));
    assert_eq!(
        said(&step.outputs),
        vec!["This Matrix room is currently not bridged to any NetChat room."]
    );
    match flow {
        Flow::Command(run) => assert_eq!(run.stage, Stage::Finished(Answer::NotBridged)),
        other => panic!("no command: {:?}", other),
    }
    let (flow, step) = Flow::Idle.advance(Event::Written);
    assert_eq!(flow, Flow::Idle);
    assert_eq!(step, Step { outputs: Vec::new(), request: None });
}

#[test]
fn username_commands_leave_the_mapping_and_bridge_commands_the_name() {
    let mut world = world();
    world.counter = 4;
    world.command("bridge", &["create", "lobby", "secret"]);
    let mapping = world.store.get("bridge.room1").cloned();
    world.command("username", &["set", "Alice"]);
    assert_eq!(world.store.get("bridge.room1").cloned(), mapping);
    world.command("username", &["clear"]);
    assert_eq!(world.store.get("bridge.room1").cloned(), mapping);
    world.command("username", &["set", "Alice"]);
    world.command("bridge", &["destroy"]);
    assert_eq!(
        world.store.get("username.room1.@alice:example.org"),
        Some(&"Alice".to_string())
    );
    world.command("bridge", &["create", "other", "secret"]);
    assert_eq!(
        world.store.get("username.room1.@alice:example.org"),
        Some(&"Alice".to_string())
    );
}

#[test]
fn cursor_over_a_sequence_of_counters() {
    let mut world = world();
    world.counter = 3;
    world.command("bridge", &["create", "lobby", "secret"]);
    let mut cursor = 3usize;
    for fetched in [3usize, 5, 5, 2, 0, 7, 7, 1, 4] {
        world.counter = fetched;
        world.messages = stamped(fetched);
        let outputs = world.poll();
        let after = world.cursor("room1").expect("a mapping");
        assert_eq!(after, fetched);
        assert!(after >= cursor || fetched < cursor);
        assert_eq!(inbound(&outputs).len(), fetched.saturating_sub(cursor));
        cursor = after;
    }
}

use chat_relay::moderation::{context_options, ModerationGate, ModerationOutcome};
use chat_relay::registry::RoomRegistry;
use chat_relay::room::Room;
use chat_relay::server::{bind, rocket, RouteName, ServerPlan, WsFairing};
use chat_relay::session::{publish_outcome, Effect, Session, SessionEvent};
use chat_relay::types::{ClientMessage, Message, ServerMessage, User, MAX_NAME_LENGTH};
use std::time::Duration;

fn key(s: &str) -> String {
    s.to_string()
}

#[test]
fn room_add_get_remove() {
    let mut room = Room::new();
    assert!(room.is_empty());
    room.add_user(User::new(1, "ann".to_string()));
    room.modify_or_add_user(User::new(2, "bob".to_string()));
    assert!(room.has_user(1));
    assert_eq!(room.get_user(2).unwrap().get_name(), "bob");
    assert_eq!(room.rename_user(2, "rob".to_string()), Some(User::new(2, "rob".to_string())));
    assert_eq!(room.rename_user(9, "x".to_string()), None);
    assert_eq!(room.remove_user(1), Some(User::new(1, "ann".to_string())));
    assert_eq!(room.remove_user(1), None);
    assert!(!room.is_empty());
}

#[test]
fn joins_to_one_key_share_one_room() {
    let mut reg: RoomRegistry<u32> = RoomRegistry::new();
    reg.join(&key("lobby"), User::new(1, "a".to_string()), 100);
    reg.join(&key("lobby"), User::new(2, "b".to_string()), 200);
    assert_eq!(reg.channel(&key("lobby")), Some(&100));
    assert_eq!(reg.lookup(&key("lobby"), 1), Some(User::new(1, "a".to_string())));
    assert_eq!(reg.lookup(&key("lobby"), 2), Some(User::new(2, "b".to_string())));
    reg.get_or_create(&key("other"), 300);
    assert_eq!(reg.channel(&key("other")), Some(&300));
    assert_eq!(reg.channel(&key("lobby")), Some(&100));
    assert_eq!(reg.discovery().available_rooms.len(), 2);
}

#[test]
fn last_leave_removes_room_and_rejoin_recreates_it() {
    let mut reg: RoomRegistry<u32> = RoomRegistry::new();
    reg.join(&key("r"), User::new(1, "a".to_string()), 1);
    reg.join(&key("r"), User::new(2, "b".to_string()), 2);
    assert_eq!(reg.leave(&key("r"), 1), Some(User::new(1, "a".to_string())));
    assert!(reg.contains(&key("r")));
    assert_eq!(reg.leave(&key("r"), 2), Some(User::new(2, "b".to_string())));
    assert!(!reg.contains(&key("r")));
    assert_eq!(reg.leave(&key("r"), 2), None);
    reg.get_or_create(&key("r"), 3);
    assert_eq!(reg.lookup(&key("r"), 1), None);
    assert_eq!(reg.channel(&key("r")), Some(&3));
    assert!(reg.remove_if_empty(&key("r")));
    assert!(!reg.remove_if_empty(&key("r")));
}

#[test]
fn discovery_lists_live_rooms() {
    let mut reg: RoomRegistry<u32> = RoomRegistry::new();
    reg.get_or_create(&key("a"), 0);
    reg.get_or_create(&key("b"), 0);
    reg.get_or_create(&key("a"), 0);
    let d = reg.discovery();
    assert_eq!(d.version, "/version");
    assert_eq!(d.available_rooms, vec![key("a"), key("b")]);
}

#[test]
fn rate_limit_lets_a_burst_through_then_holds() {
    let mut gate = ModerationGate::new(&context_options());
    let texts = ["apple", "bicycle", "cathedral", "dolphin", "evergreen"];
    for t in texts {
        assert_eq!(gate.evaluate(t.to_string()), ModerationOutcome::Accepted(t.to_string()));
    }
    match gate.evaluate("fjord".to_string()) {
        ModerationOutcome::Banned { reason, .. } => {
            assert_eq!(reason, "You have been temporarily muted due to excessive frequency")
        }
        other => panic!("expected a ban, got {other:?}"),
    }
}

#[test]
fn moderation_trims_whitespace() {
    let mut gate = ModerationGate::new(&context_options());
    assert_eq!(gate.evaluate("  hi there  ".to_string()), ModerationOutcome::Accepted("hi there".to_string()));
}

#[test]
fn moderation_records_checked_texts_and_keeps_options() {
    let opts = context_options();
    let mut gate = ModerationGate::new(&opts);
    gate.evaluate("one".to_string());
    gate.evaluate("two".to_string());
    assert_eq!(gate.evaluate(" three ".to_string()), ModerationOutcome::Accepted("three".to_string()));
}

#[test]
fn options_are_the_relays() {
    let o = context_options();
    assert_eq!(o.rate_limit_burst, 4);
    assert_eq!(o.rate_limit_interval_ms, 500);
    assert!(o.trim_whitespace && !o.block_if_empty && !o.block_if_muted);
}

fn started(reg: &mut RoomRegistry<u32>, id: u128, name: &str) -> Session {
    let (s, effects) = Session::start(reg, key("lobby"), id, name.to_string(), 0, &context_options());
    assert_eq!(effects, vec![Effect::Publish(ServerMessage::UserJoined(User::new(id, name.to_string())))]);
    s
}

#[test]
fn rename_beyond_bound_is_refused() {
    let mut reg: RoomRegistry<u32> = RoomRegistry::new();
    let mut s = started(&mut reg, 7, "seven");
    let long = "x".repeat(MAX_NAME_LENGTH + 1);
    let effects = s.step(&mut reg, SessionEvent::Command(ClientMessage::ChangeUserName(long.clone())));
    assert_eq!(effects, vec![Effect::Reply(ServerMessage::NameTooLong(long))]);
    assert_eq!(reg.lookup(&key("lobby"), 7).unwrap().name, "seven");
}

#[test]
fn rename_within_bound_is_announced() {
    let mut reg: RoomRegistry<u32> = RoomRegistry::new();
    let mut s = started(&mut reg, 7, "seven");
    let name = "y".repeat(MAX_NAME_LENGTH);
    let effects = s.step(&mut reg, SessionEvent::Command(ClientMessage::ChangeUserName(name.clone())));
    assert_eq!(effects, vec![Effect::Publish(ServerMessage::UserNameChange(User::new(7, name.clone())))]);
    assert_eq!(reg.lookup(&key("lobby"), 7).unwrap().name, name);
}

#[test]
fn lookups_answer_privately() {
    let mut reg: RoomRegistry<u32> = RoomRegistry::new();
    let mut a = started(&mut reg, 1, "a");
    started(&mut reg, 2, "b");
    assert_eq!(
        a.step(&mut reg, SessionEvent::Command(ClientMessage::GetUserData(2))),
        vec![Effect::Reply(ServerMessage::UserData(User::new(2, "b".to_string())))]
    );
    assert_eq!(
        a.step(&mut reg, SessionEvent::Command(ClientMessage::GetUserData(3))),
        vec![Effect::Reply(ServerMessage::InvalidUser(3))]
    );
    assert_eq!(
        a.step(&mut reg, SessionEvent::Command(ClientMessage::GetSelf)),
        vec![Effect::Reply(ServerMessage::SelfData(User::new(1, "a".to_string())))]
    );
}

#[test]
fn raw_text_is_sent_as_a_message() {
    let mut reg: RoomRegistry<u32> = RoomRegistry::new();
    let mut a = started(&mut reg, 1, "a");
    assert_eq!(
        a.step(&mut reg, SessionEvent::Text("not json".to_string())),
        vec![Effect::Publish(ServerMessage::NewMessage(Message::new(1, "not json".to_string())))]
    );
}

#[test]
fn broadcasts_are_forwarded_and_lag_ignored() {
    let mut reg: RoomRegistry<u32> = RoomRegistry::new();
    let mut a = started(&mut reg, 1, "a");
    let m = ServerMessage::UserJoined(User::new(5, "e".to_string()));
    assert_eq!(a.step(&mut reg, SessionEvent::Broadcast(m.clone())), vec![Effect::Reply(m)]);
    assert_eq!(a.step(&mut reg, SessionEvent::Lagged(3)), vec![]);
    assert!(!a.is_closed());
}

#[test]
fn leaving_is_announced_once() {
    let mut reg: RoomRegistry<u32> = RoomRegistry::new();
    let mut a = started(&mut reg, 1, "a");
    let effects = a.step(&mut reg, SessionEvent::TransportError);
    assert_eq!(
        effects,
        vec![Effect::Publish(ServerMessage::UserLeft(User::new(1, "a".to_string()))), Effect::CloseSocket]
    );
    assert!(a.is_closed());
    assert!(!reg.contains(&key("lobby")));
    assert_eq!(a.step(&mut reg, SessionEvent::Shutdown), vec![]);
    assert_eq!(a.step(&mut reg, SessionEvent::CloseFrame), vec![]);
}

#[test]
fn close_frame_and_shutdown_deregister() {
    let mut reg: RoomRegistry<u32> = RoomRegistry::new();
    let mut a = started(&mut reg, 1, "a");
    let mut b = started(&mut reg, 2, "b");
    assert_eq!(
        a.step(&mut reg, SessionEvent::CloseFrame),
        vec![Effect::Publish(ServerMessage::UserLeft(User::new(1, "a".to_string())))]
    );
    assert!(reg.contains(&key("lobby")));
    assert_eq!(
        b.step(&mut reg, SessionEvent::Shutdown),
        vec![Effect::Publish(ServerMessage::UserLeft(User::new(2, "b".to_string()))), Effect::CloseSocket]
    );
    assert!(!reg.contains(&key("lobby")));
}

#[test]
fn channel_closed_ends_the_session() {
    let mut reg: RoomRegistry<u32> = RoomRegistry::new();
    let mut a = started(&mut reg, 1, "a");
    assert_eq!(
        a.step(&mut reg, SessionEvent::ChannelClosed),
        vec![Effect::Publish(ServerMessage::UserLeft(User::new(1, "a".to_string())))]
    );
    assert!(a.is_closed());
}

#[test]
fn outcomes_become_effects() {
    assert_eq!(
        publish_outcome(4, ModerationOutcome::Accepted("hey".to_string())),
        vec![Effect::Publish(ServerMessage::NewMessage(Message::new(4, "hey".to_string())))]
    );
    let banned = ModerationOutcome::Banned { duration: Duration::from_secs(3), reason: "no".to_string() };
    assert_eq!(
        publish_outcome(4, banned),
        vec![Effect::Reply(ServerMessage::Banned { duration: Duration::from_secs(3), reason: "no".to_string() })]
    );
}

#[test]
fn connect_registers_a_fresh_participant() {
    let mut reg: RoomRegistry<u32> = RoomRegistry::new();
    let (a, effects) = Session::connect(&mut reg, key("lobby"), 0, &context_options());
    let (b, _) = Session::connect(&mut reg, key("lobby"), 0, &context_options());
    assert_ne!(a.id(), b.id());
    let user = reg.lookup(&key("lobby"), a.id()).unwrap();
    assert!(!user.name.is_empty());
    assert!(user.name.chars().count() <= chat_relay::types::MAX_NAME_LENGTH);
    assert_eq!(effects, vec![Effect::Publish(ServerMessage::UserJoined(user))]);
    assert_eq!(a.key(), "lobby");
}

#[test]
fn is_user_matches_subject() {
    assert!(ServerMessage::NewMessage(Message::new(3, "x".to_string())).is_user(3));
    assert!(ServerMessage::InvalidUser(3).is_user(3));
    assert!(!ServerMessage::UserLeft(User::new(4, "d".to_string())).is_user(3));
    assert!(!ServerMessage::NameTooLong("n".to_string()).is_user(3));
}

#[test]
fn user_and_message_accessors() {
    let mut u = User::new(9, "nine".to_string());
    assert_eq!(u.get_id(), 9);
    u.set_name("ten".to_string());
    assert_eq!(u.get_name(), "ten");
    let m = Message::new(9, "body".to_string());
    assert_eq!(m.get_author(), 9);
    assert_eq!(m.get_content(), "body");
}

#[test]
fn fairing_mounts_under_base() {
    assert_eq!(WsFairing::new("/ws".to_string()).mount_point(), "/ws/");
    assert_eq!(WsFairing::new(String::new()).mount_point(), "/");
    assert!(!rocket().cli_colors);
}

#[test]
fn bind_mounts_room_socket_under_ws() {
    let plan = bind(ServerPlan::new());
    assert_eq!(plan.mounts.len(), 1);
    assert_eq!(plan.mounts[0].base, "/ws");
    assert_eq!(plan.mounts[0].routes, vec![RouteName::RoomSocket]);
}

#[test]
fn fairing_ignites_where_the_server_takes_the_base() {
    let plan = WsFairing::new("/chat".to_string()).ignite(ServerPlan::new()).unwrap();
    assert_eq!(plan.mounts[0].base, "/chat/");
    assert_eq!(plan.mounts[0].routes, vec![RouteName::RoomSocket, RouteName::Version, RouteName::About]);
    assert_eq!(WsFairing::new("/~a".to_string()).ignite(ServerPlan::new()).unwrap().mounts[0].base, "/~a/");
    assert!(WsFairing::new(String::new()).ignite(ServerPlan::new()).is_some());
    assert!(WsFairing::new("/<x>".to_string()).ignite(ServerPlan::new()).is_none());
    assert!(WsFairing::new("ws".to_string()).ignite(ServerPlan::new()).is_none());
}

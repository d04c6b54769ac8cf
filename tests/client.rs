use chat_relay::client::{
    action_request, incoming_event, joined, left, message, name_change, plan_actions, server_event, toggled, App,
    Incoming, Offset, RoomEvent, WsAction, WsEvent,
};
use chat_relay::moderation::context_options;
use chat_relay::registry::RoomRegistry;
use chat_relay::session::{Effect, Session, SessionEvent};
use chat_relay::types::{ClientMessage, Message, ServerMessage, User};

#[test]
fn unknown_author_is_requested_once() {
    let mut app = App::new();
    app.handle_event(&WsEvent::Message(Message::new(42, "hi".to_string())));
    app.send_sync_requests();
    app.send_sync_requests();
    app.handle_event(&WsEvent::Message(Message::new(42, "again".to_string())));
    app.send_sync_requests();
    let actions = app.take_actions();
    let asks = actions.iter().filter(|a| **a == WsAction::RequestUser(42)).count();
    assert_eq!(asks, 1);
    assert_eq!(actions.iter().filter(|a| **a == WsAction::RequestSelf).count(), 1);
    assert!(app.take_actions().is_empty());
}

#[test]
fn known_and_own_authors_are_not_requested() {
    let mut app = App::new();
    app.handle_event(&WsEvent::SelfInfo(User::new(1, "me".to_string())));
    app.handle_event(&WsEvent::UserInfo(User::new(2, "you".to_string())));
    app.handle_event(&WsEvent::Message(Message::new(1, "mine".to_string())));
    app.handle_event(&WsEvent::Message(Message::new(2, "yours".to_string())));
    app.send_sync_requests();
    assert!(app.take_actions().is_empty());
    assert_eq!(app.get_self().unwrap().get_name(), "me");
    assert_eq!(app.room_events().len(), 2);
}

#[test]
fn anchor_round_trip_keeps_inner_positions() {
    let len = 10usize;
    for o in 1..len {
        let rel = toggled(Some(Offset::Absolute(o)), len);
        assert_eq!(rel, Some(Offset::Relative(len - o)));
        assert_eq!(toggled(rel, len), Some(Offset::Absolute(o)));
    }
    assert_eq!(toggled(Some(Offset::Absolute(len)), len), None);
    assert_eq!(toggled(Some(Offset::Absolute(len + 5)), len), None);
    assert_eq!(toggled(Some(Offset::Relative(len + 5)), len), None);
    assert_eq!(toggled(Some(Offset::Relative(3)), len), Some(Offset::Absolute(7)));
    assert_eq!(toggled(None, len), Some(Offset::Absolute(len)));
    assert_eq!(toggled(Some(Offset::Absolute(0)), len), Some(Offset::Relative(10)));
    assert_eq!(toggled(Some(Offset::Relative(10)), len), None);
}

#[test]
fn app_toggles_its_anchor() {
    let mut app = App::new();
    for i in 0..4 {
        app.handle_event(&WsEvent::UserRemove(i));
    }
    app.toggle_offset_mode();
    assert_eq!(app.scroll_offset(), Some(Offset::Absolute(4)));
    app.toggle_offset_mode();
    assert_eq!(app.scroll_offset(), None);
    app.toggle_offset_mode();
    app.force_disable_offset();
    assert_eq!(app.scroll_offset(), None);
}

#[test]
fn rename_of_unknown_uses_identity_text() {
    let mut app = App::new();
    app.handle_event(&WsEvent::UserChange(User::new(42, "neo".to_string())));
    assert_eq!(
        app.room_events()[0],
        RoomEvent::UserNameChange {
            from: "00000000-0000-0000-0000-00000000002a".to_string(),
            to: "neo".to_string()
        }
    );
    app.handle_event(&WsEvent::UserChange(User::new(42, "trinity".to_string())));
    assert_eq!(
        app.room_events()[1],
        RoomEvent::UserNameChange { from: "neo".to_string(), to: "trinity".to_string() }
    );
    assert_eq!(app.get_user(42).unwrap().get_name(), "trinity");
}

#[test]
fn joins_and_leaves_are_logged_and_names_kept() {
    let mut app = App::new();
    let u = User::new(5, "eve".to_string());
    assert!(!app.add_user(&u));
    assert!(app.add_user(&u));
    app.remove_user(5);
    assert_eq!(app.room_events().clone(), vec![RoomEvent::UserJoined(5), RoomEvent::UserLeft(5)]);
    assert_eq!(app.get_user(5).unwrap().get_name(), "eve");
}

#[test]
fn quit_ends_the_loop_and_asks_for_shutdown() {
    let mut app = App::new();
    assert!(!app.should_quit());
    app.handle_event(&WsEvent::Quit);
    assert!(app.should_quit());
    assert_eq!(app.take_actions(), vec![WsAction::Quit]);
}

#[test]
fn actions_become_requests() {
    assert_eq!(action_request(&WsAction::Message("m".to_string())), Some(ClientMessage::SendMessage("m".to_string())));
    assert_eq!(action_request(&WsAction::ChangeName("n".to_string())), Some(ClientMessage::ChangeUserName("n".to_string())));
    assert_eq!(action_request(&WsAction::RequestUser(3)), Some(ClientMessage::GetUserData(3)));
    assert_eq!(action_request(&WsAction::RequestSelf), Some(ClientMessage::GetSelf));
    assert_eq!(action_request(&WsAction::Quit), None);
}

#[test]
fn relay_messages_become_events() {
    let u = User::new(8, "h".to_string());
    assert_eq!(server_event(ServerMessage::UserLeft(u.clone())), Some(WsEvent::UserRemove(8)));
    assert_eq!(server_event(ServerMessage::UserJoined(u.clone())), Some(WsEvent::UserAdd(u.clone())));
    assert_eq!(server_event(ServerMessage::UserData(u.clone())), Some(WsEvent::UserInfo(u.clone())));
    assert_eq!(server_event(ServerMessage::SelfData(u.clone())), Some(WsEvent::SelfInfo(u.clone())));
    assert_eq!(server_event(ServerMessage::UserNameChange(u.clone())), Some(WsEvent::UserChange(u)));
    assert_eq!(server_event(ServerMessage::InvalidUser(8)), None);
}

fn published(effects: Vec<Effect>) -> Vec<ServerMessage> {
    effects
        .into_iter()
        .filter_map(|e| match e {
            Effect::Publish(m) => Some(m),
            _ => None,
        })
        .collect()
}

#[test]
fn lobby_hello_reaches_other_participant() {
    let mut reg: RoomRegistry<u32> = RoomRegistry::new();
    let opts = context_options();
    let (mut b, _) = Session::start(&mut reg, "lobby".to_string(), 2, "bee".to_string(), 0, &opts);
    let mut b_app = App::new();
    b_app.handle_event(&WsEvent::SelfInfo(User::new(2, "bee".to_string())));

    let (mut a, _) = Session::start(&mut reg, "lobby".to_string(), 1, "ay".to_string(), 0, &opts);
    let sent = a.step(&mut reg, SessionEvent::Command(ClientMessage::SendMessage("hello".to_string())));
    let sent = published(sent);
    assert_eq!(sent, vec![ServerMessage::NewMessage(Message::new(1, "hello".to_string()))]);

    // B's session forwards the broadcast to B's connection.
    let delivered = b.step(&mut reg, SessionEvent::Broadcast(sent[0].clone()));
    let frame = match &delivered[0] {
        Effect::Reply(m) => m.clone(),
        other => panic!("unexpected effect {other:?}"),
    };
    let event = server_event(frame).unwrap();
    assert_eq!(event, WsEvent::Message(Message::new(1, "hello".to_string())));

    b_app.handle_event(&event);
    assert!(b_app.get_user(1).is_none());
    assert_eq!(b_app.take_actions(), vec![WsAction::RequestUser(1)]);

    // B asks for A; the answer fills in the placeholder.
    let ask = action_request(&WsAction::RequestUser(1)).unwrap();
    let answer = b.step(&mut reg, SessionEvent::Command(ask));
    let reply = match &answer[0] {
        Effect::Reply(m) => m.clone(),
        other => panic!("unexpected effect {other:?}"),
    };
    b_app.handle_event(&server_event(reply).unwrap());
    assert_eq!(b_app.get_user(1).unwrap().get_name(), "ay");
    assert_eq!(b_app.room_events()[0], RoomEvent::Message(Message::new(1, "hello".to_string())));
}

#[test]
fn actions_are_sent_up_to_quit() {
    let actions = vec![
        WsAction::Message("a".to_string()),
        WsAction::RequestSelf,
        WsAction::Quit,
        WsAction::RequestUser(4),
    ];
    let plan = plan_actions(&actions, false);
    assert_eq!(plan.requests, vec![ClientMessage::SendMessage("a".to_string()), ClientMessage::GetSelf]);
    assert!(plan.close);
    let plan = plan_actions(&vec![WsAction::ChangeName("z".to_string())], false);
    assert_eq!(plan.requests, vec![ClientMessage::ChangeUserName("z".to_string())]);
    assert!(!plan.close);
    let plan = plan_actions(&vec![], true);
    assert!(plan.requests.is_empty() && plan.close);
}

#[test]
fn reads_become_events_or_end_the_connection() {
    let m = Message::new(1, "x".to_string());
    assert_eq!(
        incoming_event(Incoming::Frame(ServerMessage::NewMessage(m.clone()))),
        (Some(WsEvent::Message(m)), false)
    );
    assert_eq!(incoming_event(Incoming::Frame(ServerMessage::InvalidUser(1))), (None, false));
    assert_eq!(incoming_event(Incoming::Unparsed), (None, false));
    assert_eq!(incoming_event(Incoming::Other), (None, false));
    assert_eq!(incoming_event(Incoming::Close), (Some(WsEvent::Quit), true));
    assert_eq!(incoming_event(Incoming::Ended), (Some(WsEvent::Quit), true));
    assert_eq!(incoming_event(Incoming::Error), (Some(WsEvent::Quit), true));
}

#[test]
fn log_entries_and_messages() {
    let m = Message::new(2, "yo".to_string());
    assert_eq!(message(m.clone()), RoomEvent::Message(m.clone()));
    assert_eq!(left(2), RoomEvent::UserLeft(2));
    assert_eq!(joined(2), RoomEvent::UserJoined(2));
    assert_eq!(
        name_change("a".to_string(), "b".to_string()),
        RoomEvent::UserNameChange { from: "a".to_string(), to: "b".to_string() }
    );
    let mut app = App::new();
    app.handle_event(&WsEvent::UserRemove(7));
    app.handle_event(&WsEvent::Message(m.clone()));
    assert_eq!(app.messages(), vec![m]);
}

#[test]
fn accepted_text_is_trimmed_and_blank_text_refused() {
    let mut app = App::new();
    assert!(app.accept_message("  hi there \n"));
    assert!(!app.accept_message("   "));
    assert!(app.accept_name(" neo ".to_string()));
    assert!(!app.accept_name("\t".to_string()));
    assert_eq!(
        app.take_actions(),
        vec![
            WsAction::Message("hi there".to_string()),
            WsAction::ChangeName(" neo ".to_string()),
            WsAction::RequestSelf
        ]
    );
}

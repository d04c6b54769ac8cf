//! The client side: the reconciliation loop that folds relay events into an
//! append-only room log and a user directory, the scroll anchor into that log,
//! and the bridge's translation between UI actions, requests and events.

use std::collections::HashMap;
use vstd::prelude::*;
use vstd::string::StrSliceExecFns;
use crate::room::keyed_by_id;
use crate::types::{identity_text, uuid_text, ClientMessage, Identity, Message, ServerMessage, User};

verus! {

broadcast use vstd::std_specs::hash::group_hash_axioms;

/// A text without its leading and trailing whitespace.
pub uninterp spec fn trimmed(s: Seq<char>) -> Seq<char>;

/// Relies on `str::trim`: the text without leading and trailing Unicode
/// whitespace, a function of the text alone.
#[verifier::external_body]
fn trim_text(s: &str) -> (r: String)
    ensures
        r@ == trimmed(s@),
{
    s.trim().to_owned()
}

/// One entry of the client's room log.
#[derive(Debug, Clone, PartialEq, Eq)]
pub enum RoomEvent {
    Message(Message),
    UserLeft(Identity),
    UserJoined(Identity),
    UserNameChange { from: String, to: String },
}

/// A room-log entry as the contracts see it.
pub enum RoomEventModel {
    Message(Identity, Seq<char>),
    UserLeft(Identity),
    UserJoined(Identity),
    UserNameChange(Seq<char>, Seq<char>),
}

impl View for RoomEvent {
    type V = RoomEventModel;

    open spec fn view(&self) -> RoomEventModel {
        match self {
            RoomEvent::Message(m) => RoomEventModel::Message(m.from, m.content@),
            RoomEvent::UserLeft(id) => RoomEventModel::UserLeft(*id),
            RoomEvent::UserJoined(id) => RoomEventModel::UserJoined(*id),
            RoomEvent::UserNameChange { from, to } => RoomEventModel::UserNameChange(from@, to@),
        }
    }
}

/// What the network task hands the UI loop.
#[derive(Debug, Clone, PartialEq, Eq)]
pub enum WsEvent {
    SelfInfo(User),
    UserAdd(User),
    UserInfo(User),
    UserChange(User),
    UserRemove(Identity),
    Message(Message),
    Quit,
}

/// What the UI loop asks the network task to do.
#[derive(Debug, Clone, PartialEq, Eq)]
pub enum WsAction {
    Message(String),
    ChangeName(String),
    RequestUser(Identity),
    RequestSelf,
    Quit,
}

/// Where the view of the room log is anchored: this many entries from the
/// oldest, or this many (at least one) from the newest. No anchor follows the tail.
#[derive(Debug, Clone, Copy, PartialEq, Eq)]
pub enum Offset {
    Absolute(usize),
    Relative(usize),
}

/// The anchor after switching between the two kinds on a log of `len` entries:
/// the same position counted from the other end, no anchor when that count is
/// zero, and the oldest-counted position of the tail when there was no anchor.
pub open spec fn toggled_spec(offset: Option<Offset>, len: nat) -> Option<Offset> {
    match offset {
        Some(Offset::Absolute(n)) => {
            let rel = len - if n <= len { n as nat } else { len };
            if rel == 0 {
                None
            } else {
                Some(Offset::Relative(rel as usize))
            }
        },
        Some(Offset::Relative(n)) => {
            let abs = len - if n <= len { n as nat } else { len };
            if abs == 0 {
                None
            } else {
                Some(Offset::Absolute(abs as usize))
            }
        },
        None => Some(Offset::Absolute(len as usize)),
    }
}

/// An anchor lies within a log of `len` entries, and one from the newest is not zero.
pub open spec fn anchor_in(offset: Option<Offset>, len: nat) -> bool {
    match offset {
        Some(Offset::Absolute(n)) => n <= len,
        Some(Offset::Relative(n)) => 0 < n <= len,
        None => true,
    }
}

/// Switches the anchor between the two kinds on a log of `len` entries.
pub fn toggled(offset: Option<Offset>, len: usize) -> (r: Option<Offset>)
    ensures
        r == toggled_spec(offset, len as nat),
        anchor_in(r, len as nat),
{
    match offset {
        Some(Offset::Absolute(n)) => {
            let rel = len - if n <= len { n } else { len };
            if rel == 0 {
                None
            } else {
                Some(Offset::Relative(rel))
            }
        },
        Some(Offset::Relative(n)) => {
            let abs = len - if n <= len { n } else { len };
            if abs == 0 {
                None
            } else {
                Some(Offset::Absolute(abs))
            }
        },
        None => Some(Offset::Absolute(len)),
    }
}

/// Switching an anchor from the oldest to the newest end and back keeps its
/// position, for every position strictly inside the log; at either end the
/// anchor collapses to following the tail.
pub proof fn lemma_anchor_round_trip(o: usize, len: usize)
    ensures
        0 < o < len ==> toggled_spec(
            toggled_spec(Some(Offset::Absolute(o)), len as nat),
            len as nat,
        ) == Some(Offset::Absolute(o)),
        o >= len ==> toggled_spec(Some(Offset::Absolute(o)), len as nat) is None,
        o == 0 ==> toggled_spec(
            toggled_spec(Some(Offset::Absolute(o)), len as nat),
            len as nat,
        ) is None || len == 0,
{
}

/// The client's state as the contracts see it.
pub struct AppModel {
    pub events: Seq<RoomEventModel>,
    pub users: Map<Identity, User>,
    pub self_id: Option<Identity>,
    pub should_quit: bool,
    pub offset: Option<Offset>,
    pub outbox: Seq<WsAction>,
    pub requested: Seq<Identity>,
    pub self_requested: bool,
}

/// The name under which `id` shows in the log: its directory entry's name, or
/// the text of its identity when it was never known.
pub open spec fn display_name(m: AppModel, id: Identity) -> Seq<char> {
    if m.users.contains_key(id) {
        m.users[id].name@
    } else {
        uuid_text(id)
    }
}

/// Whether a message by `id` calls for a request of its data: `id` is
/// neither in the directory, nor the local participant, nor already asked for.
pub open spec fn needs_request(m: AppModel, id: Identity) -> bool {
    !m.users.contains_key(id) && m.self_id != Some(id) && !m.requested.contains(id)
}

/// The client after one event from the network task.
pub open spec fn apply(m: AppModel, ev: WsEvent) -> AppModel {
    match ev {
        WsEvent::SelfInfo(u) => AppModel { self_id: Some(u.id), users: m.users.insert(u.id, u), ..m },
        WsEvent::UserAdd(u) => if m.users.contains_key(u.id) && m.users[u.id].name@ == u.name@ {
            m
        } else {
            AppModel {
                events: m.events.push(RoomEventModel::UserJoined(u.id)),
                users: m.users.insert(u.id, u),
                ..m
            }
        },
        WsEvent::UserInfo(u) => AppModel { users: m.users.insert(u.id, u), ..m },
        WsEvent::UserChange(u) => AppModel {
            events: m.events.push(RoomEventModel::UserNameChange(display_name(m, u.id), u.name@)),
            users: m.users.insert(u.id, u),
            ..m
        },
        WsEvent::UserRemove(id) => AppModel { events: m.events.push(RoomEventModel::UserLeft(id)), ..m },
        WsEvent::Message(msg) => {
            let logged = m.events.push(RoomEventModel::Message(msg.from, msg.content@));
            if needs_request(m, msg.from) {
                AppModel {
                    events: logged,
                    outbox: m.outbox.push(WsAction::RequestUser(msg.from)),
                    requested: m.requested.push(msg.from),
                    ..m
                }
            } else {
                AppModel { events: logged, ..m }
            }
        },
        WsEvent::Quit => AppModel { should_quit: true, outbox: m.outbox.push(WsAction::Quit), ..m },
    }
}

/// The client after one UI tick: the local participant is asked for once,
/// while it is unknown.
pub open spec fn tick(m: AppModel) -> AppModel {
    if m.self_id is None && !m.self_requested {
        AppModel { outbox: m.outbox.push(WsAction::RequestSelf), self_requested: true, ..m }
    } else {
        m
    }
}

/// One input of the UI loop.
pub enum ClientInput {
    Event(WsEvent),
    Tick,
}

/// The client after a run of inputs.
pub open spec fn run(m: AppModel, inputs: Seq<ClientInput>) -> AppModel
    decreases inputs.len(),
{
    if inputs.len() == 0 {
        m
    } else {
        let next = match inputs[0] {
            ClientInput::Event(ev) => apply(m, ev),
            ClientInput::Tick => tick(m),
        };
        run(next, inputs.subrange(1, inputs.len() as int))
    }
}

/// How many requests for the data of `id` a sequence of actions holds.
pub open spec fn request_count(actions: Seq<WsAction>, id: Identity) -> nat
    decreases actions.len(),
{
    if actions.len() == 0 {
        0
    } else {
        request_count(actions.drop_last(), id) + if actions.last() == WsAction::RequestUser(id) {
            1nat
        } else {
            0nat
        }
    }
}

proof fn lemma_request_count_push(s: Seq<WsAction>, a: WsAction, id: Identity)
    ensures
        request_count(s.push(a), id) == request_count(s, id) + if a == WsAction::RequestUser(id) {
            1nat
        } else {
            0nat
        },
{
    assert(s.push(a).drop_last() =~= s);
}

/// Once `id` has been asked for, no input asks for it again.
proof fn lemma_requested_stays(m: AppModel, inputs: Seq<ClientInput>, id: Identity)
    requires
        m.requested.contains(id),
    ensures
        run(m, inputs).requested.contains(id),
        request_count(run(m, inputs).outbox, id) == request_count(m.outbox, id),
    decreases inputs.len(),
{
    if inputs.len() > 0 {
        let next = match inputs[0] {
            ClientInput::Event(ev) => apply(m, ev),
            ClientInput::Tick => tick(m),
        };
        match inputs[0] {
            ClientInput::Event(ev) => {
                match ev {
                    WsEvent::Message(msg) => {
                        if needs_request(m, msg.from) {
                            assert(msg.from != id);
                            lemma_request_count_push(m.outbox, WsAction::RequestUser(msg.from), id);
                            assert(next.requested[m.requested.len() as int] == msg.from);
                            let k = choose|k: int| 0 <= k < m.requested.len() && m.requested[k] == id;
                            assert(next.requested[k] == id);
                        }
                    },
                    WsEvent::Quit => {
                        lemma_request_count_push(m.outbox, WsAction::Quit, id);
                    },
                    _ => {},
                }
            },
            ClientInput::Tick => {
                if m.self_id is None && !m.self_requested {
                    lemma_request_count_push(m.outbox, WsAction::RequestSelf, id);
                }
            },
        }
        lemma_requested_stays(next, inputs.subrange(1, inputs.len() as int), id);
    }
}

/// A message from an author that is unknown, not the local participant and
/// not yet asked for leads to exactly one request for the author's data,
/// however many ticks, messages and other events follow.
pub proof fn lemma_unknown_author_requested_once(
    m: AppModel,
    msg: Message,
    later: Seq<ClientInput>,
)
    requires
        !m.users.contains_key(msg.from),
        m.self_id != Some(msg.from),
        !m.requested.contains(msg.from),
        request_count(m.outbox, msg.from) == 0,
    ensures
        request_count(run(apply(m, WsEvent::Message(msg)), later).outbox, msg.from) == 1,
{
    let m1 = apply(m, WsEvent::Message(msg));
    lemma_request_count_push(m.outbox, WsAction::RequestUser(msg.from), msg.from);
    assert(m1.requested[m.requested.len() as int] == msg.from);
    lemma_requested_stays(m1, later, msg.from);
}

/// The client's state.
pub struct App {
    room_events: Vec<RoomEvent>,
    users: HashMap<Identity, User>,
    self_id: Option<Identity>,
    should_quit: bool,
    scroll_offset: Option<Offset>,
    outbox: Vec<WsAction>,
    requested: Vec<Identity>,
    self_requested: bool,
}

impl View for App {
    type V = AppModel;

    closed spec fn view(&self) -> AppModel {
        AppModel {
            events: self.room_events@.map_values(|e: RoomEvent| e@),
            users: self.users@,
            self_id: self.self_id,
            should_quit: self.should_quit,
            offset: self.scroll_offset,
            outbox: self.outbox@,
            requested: self.requested@,
            self_requested: self.self_requested,
        }
    }
}

impl App {
    /// The directory keeps each participant under its own identity.
    pub open spec fn wf(&self) -> bool {
        keyed_by_id(self@.users)
    }

    pub fn new() -> (r: App)
        ensures
            r.wf(),
            r@.events.len() == 0,
            r@.users == Map::<Identity, User>::empty(),
            r@.self_id is None,
            !r@.should_quit,
            r@.offset is None,
            r@.outbox.len() == 0,
            r@.requested.len() == 0,
            !r@.self_requested,
    {
        let r = App {
            room_events: Vec::new(),
            users: HashMap::new(),
            self_id: None,
            should_quit: false,
            scroll_offset: None,
            outbox: Vec::new(),
            requested: Vec::new(),
            self_requested: false,
        };
        assert(r@.events.len() == 0);
        r
    }

    fn log(&mut self, e: RoomEvent)
        ensures
            final(self)@ == (AppModel { events: old(self)@.events.push(e@), ..old(self)@ }),
    {
        self.room_events.push(e);
        assert(self@.events =~= old(self)@.events.push(e@));
    }

    /// Queues an action for the network task.
    pub fn send_action(&mut self, action: WsAction)
        ensures
            final(self)@ == (AppModel { outbox: old(self)@.outbox.push(action), ..old(self)@ }),
    {
        self.outbox.push(action);
    }

    /// Hands over the queued actions, oldest first, and empties the queue.
    pub fn take_actions(&mut self) -> (r: Vec<WsAction>)
        ensures
            r@ == old(self)@.outbox,
            final(self)@ == (AppModel { outbox: Seq::empty(), ..old(self)@ }),
    {
        let r = self.outbox.split_off(0);
        assert(self.outbox@ =~= Seq::<WsAction>::empty());
        assert(r@ =~= old(self)@.outbox);
        r
    }

    fn was_requested(&self, id: Identity) -> (r: bool)
        ensures
            r == self@.requested.contains(id),
    {
        let mut i: usize = 0;
        while i < self.requested.len()
            invariant
                i <= self.requested@.len(),
                forall|j: int| 0 <= j < i ==> self.requested@[j] != id,
            decreases self.requested@.len() - i,
        {
            if self.requested[i] == id {
                assert(self.requested@[i as int] == id);
                return true;
            }
            i += 1;
        }
        false
    }

    /// Stores `usr` in the directory under its identity.
    pub fn set_user(&mut self, usr: &User)
        requires
            old(self).wf(),
        ensures
            final(self).wf(),
            final(self)@ == (AppModel { users: old(self)@.users.insert(usr.id, *usr), ..old(self)@ }),
    {
        self.users.insert(usr.id, usr.copied());
    }

    /// Records a participant's arrival, unless the directory already holds it
    /// as it is; says whether it did.
    pub fn add_user(&mut self, user: &User) -> (r: bool)
        requires
            old(self).wf(),
        ensures
            final(self).wf(),
            final(self)@ == apply(old(self)@, WsEvent::UserAdd(*user)),
            r == (old(self)@.users.contains_key(user.id) && old(self)@.users[user.id].name@ == user.name@),
    {
        let same = match self.users.get(&user.id) {
            Some(known) => known.name == user.name,
            None => false,
        };
        if same {
            true
        } else {
            self.log(RoomEvent::UserJoined(user.id));
            self.set_user(user);
            false
        }
    }

    /// The directory entry of `id`, if it is known.
    pub fn get_user(&self, id: Identity) -> (r: Option<&User>)
        ensures
            match r {
                Some(u) => self@.users.contains_key(id) && *u == self@.users[id],
                None => !self@.users.contains_key(id),
            },
    {
        self.users.get(&id)
    }

    /// The local participant's directory entry, once it is known.
    pub fn get_self(&self) -> (r: Option<&User>)
        ensures
            match r {
                Some(u) => self@.self_id is Some && self@.users.contains_key(self@.self_id->0) && *u
                    == self@.users[self@.self_id->0],
                None => self@.self_id is None || !self@.users.contains_key(self@.self_id->0),
            },
    {
        match self.self_id {
            Some(id) => self.get_user(id),
            None => None,
        }
    }

    /// Records that participant `id` left; its directory entry stays so that
    /// earlier entries of the log still show its name.
    pub fn remove_user(&mut self, id: Identity)
        ensures
            final(self)@ == apply(old(self)@, WsEvent::UserRemove(id)),
    {
        self.log(RoomEvent::UserLeft(id));
    }

    /// Records the local participant.
    pub fn set_self(&mut self, usr: &User)
        requires
            old(self).wf(),
        ensures
            final(self).wf(),
            final(self)@ == apply(old(self)@, WsEvent::SelfInfo(*usr)),
    {
        self.self_id = Some(usr.id);
        self.set_user(usr);
    }

    /// Records a rename: the log gets the old and the new name, the directory the new one.
    pub fn change_user_name(&mut self, usr: &User)
        requires
            old(self).wf(),
        ensures
            final(self).wf(),
            final(self)@ == apply(old(self)@, WsEvent::UserChange(*usr)),
    {
        let from = match self.users.get(&usr.id) {
            Some(known) => known.name.clone(),
            None => identity_text(usr.id),
        };
        self.log(RoomEvent::UserNameChange { from, to: usr.name.clone() });
        self.set_user(usr);
    }

    /// Appends a message to the log, and asks for its author's data where the
    /// author is unknown, not the local participant and not yet asked for.
    pub fn add_message(&mut self, msg: &Message)
        requires
            old(self).wf(),
        ensures
            final(self).wf(),
            final(self)@ == apply(old(self)@, WsEvent::Message(*msg)),
    {
        let author = msg.from;
        let ask = !self.users.contains_key(&author) && self.self_id != Some(author)
            && !self.was_requested(author);
        self.log(RoomEvent::Message(msg.copied()));
        if ask {
            self.send_action(WsAction::RequestUser(author));
            self.requested.push(author);
        }
    }

    /// Takes the text of the message field: queues it, trimmed, as a message
    /// where trimming leaves something; says whether it did.
    pub fn accept_message(&mut self, text: &str) -> (r: bool)
        ensures
            r == (trimmed(text@).len() > 0),
            r ==> final(self)@.outbox.len() == old(self)@.outbox.len() + 1
                && final(self)@.outbox.drop_last() == old(self)@.outbox
                && final(self)@ == (AppModel { outbox: final(self)@.outbox, ..old(self)@ })
                && (final(self)@.outbox.last() matches WsAction::Message(t) && t@ == trimmed(text@)),
            !r ==> final(self)@ == old(self)@,
    {
        let t = trim_text(text);
        if t.as_str().unicode_len() > 0 {
            let ghost before = self@.outbox;
            self.send_action(WsAction::Message(t));
            assert(self@.outbox.drop_last() =~= before);
            true
        } else {
            false
        }
    }

    /// Takes the text of the name field: where it is not blank, asks for the
    /// rename and then for the local participant as it now is; says whether it did.
    pub fn accept_name(&mut self, text: String) -> (r: bool)
        ensures
            r == (trimmed(text@).len() > 0),
            r ==> final(self)@ == (AppModel {
                outbox: old(self)@.outbox.push(WsAction::ChangeName(text)).push(WsAction::RequestSelf),
                ..old(self)@
            }),
            !r ==> final(self)@ == old(self)@,
    {
        let t = trim_text(text.as_str());
        if t.as_str().unicode_len() > 0 {
            self.send_action(WsAction::ChangeName(text));
            self.send_action(WsAction::RequestSelf);
            true
        } else {
            false
        }
    }

    /// Ends the UI loop and asks the network task to shut down.
    pub fn quit(&mut self)
        ensures
            final(self)@ == apply(old(self)@, WsEvent::Quit),
    {
        self.should_quit = true;
        self.send_action(WsAction::Quit);
    }

    /// Folds one event from the network task into the client's state.
    pub fn handle_event(&mut self, event: &WsEvent)
        requires
            old(self).wf(),
        ensures
            final(self).wf(),
            final(self)@ == apply(old(self)@, *event),
    {
        match event {
            WsEvent::UserAdd(user) => {
                self.add_user(user);
            },
            WsEvent::UserRemove(id) => self.remove_user(*id),
            WsEvent::UserChange(user) => self.change_user_name(user),
            WsEvent::Message(message) => self.add_message(message),
            WsEvent::Quit => self.quit(),
            WsEvent::SelfInfo(user) => self.set_self(user),
            WsEvent::UserInfo(user) => self.set_user(user),
        }
    }

    /// The work of one UI tick: ask once for the local participant while it is
    /// unknown. The relay answers that request from the session's own
    /// registration, which holds while the session is active, so the one
    /// request stays outstanding only until its answer makes the participant known.
    pub fn send_sync_requests(&mut self)
        ensures
            final(self)@ == tick(old(self)@),
    {
        if self.self_id.is_none() && !self.self_requested {
            self.send_action(WsAction::RequestSelf);
            self.self_requested = true;
        }
    }

    /// Whether the UI loop should end.
    pub fn should_quit(&self) -> (r: bool)
        ensures
            r == self@.should_quit,
    {
        self.should_quit
    }

    /// The room log, oldest first.
    pub fn room_events(&self) -> (r: &Vec<RoomEvent>)
        ensures
            r@.map_values(|e: RoomEvent| e@) == self@.events,
    {
        &self.room_events
    }

    /// The messages of the log, oldest first.
    pub fn messages(&self) -> (r: Vec<Message>)
        ensures
            r@.map_values(|m: Message| RoomEventModel::Message(m.from, m.content@)) == self@.events.filter(
                |e: RoomEventModel| e is Message,
            ),
    {
        let mut r: Vec<Message> = Vec::new();
        let mut i: usize = 0;
        while i < self.room_events.len()
            invariant
                i <= self.room_events@.len(),
                r@.map_values(|m: Message| RoomEventModel::Message(m.from, m.content@))
                    == self@.events.take(i as int).filter(|e: RoomEventModel| e is Message),
            decreases self.room_events@.len() - i,
        {
            let ghost evs = self@.events;
            proof {
                assert(evs.take(i + 1).drop_last() =~= evs.take(i as int));
                assert(evs[i as int] == self.room_events@[i as int]@);
            }
            match &self.room_events[i] {
                RoomEvent::Message(m) => {
                    r.push(m.copied());
                },
                _ => {},
            }
            proof {
                reveal(Seq::filter);
                assert(r@.map_values(|m: Message| RoomEventModel::Message(m.from, m.content@))
                    =~= evs.take(i + 1).filter(|e: RoomEventModel| e is Message));
            }
            i += 1;
        }
        proof {
            assert(self@.events.take(self.room_events@.len() as int) =~= self@.events);
        }
        r
    }

    /// The current anchor of the view into the log.
    pub fn scroll_offset(&self) -> (r: Option<Offset>)
        ensures
            r == self@.offset,
    {
        self.scroll_offset
    }

    /// Switches the anchor between counting from the oldest and from the newest entry.
    pub fn toggle_offset_mode(&mut self)
        ensures
            final(self)@ == (AppModel {
                offset: toggled_spec(old(self)@.offset, old(self)@.events.len()),
                ..old(self)@
            }),
    {
        self.scroll_offset = toggled(self.scroll_offset, self.room_events.len());
    }

    /// Drops the anchor: the view follows the tail of the log.
    pub fn force_disable_offset(&mut self)
        ensures
            final(self)@ == (AppModel { offset: None, ..old(self)@ }),
    {
        self.scroll_offset = None;
    }
}

/// The request that an action stands for; none for `Quit`, which closes the connection.
pub open spec fn request_of(action: WsAction) -> Option<ClientMessage> {
    match action {
        WsAction::Message(t) => Some(ClientMessage::SendMessage(t)),
        WsAction::ChangeName(n) => Some(ClientMessage::ChangeUserName(n)),
        WsAction::RequestUser(id) => Some(ClientMessage::GetUserData(id)),
        WsAction::RequestSelf => Some(ClientMessage::GetSelf),
        WsAction::Quit => None,
    }
}

/// The request that an action stands for; none for `Quit`, which closes the connection.
pub fn action_request(action: &WsAction) -> (r: Option<ClientMessage>)
    ensures
        r == request_of(*action),
{
    match action {
        WsAction::Message(t) => Some(ClientMessage::SendMessage(t.clone())),
        WsAction::ChangeName(n) => Some(ClientMessage::ChangeUserName(n.clone())),
        WsAction::RequestUser(id) => Some(ClientMessage::GetUserData(*id)),
        WsAction::RequestSelf => Some(ClientMessage::GetSelf),
        WsAction::Quit => None,
    }
}

/// What the network task does with the actions drained from the UI in one
/// tick: the requests to send, in order, and whether to close the connection.
#[derive(Debug, Clone, PartialEq, Eq)]
pub struct ActionPlan {
    pub requests: Vec<ClientMessage>,
    pub close: bool,
}

/// Plans the sending of `actions`, oldest first: each stands for its request
/// up to the first `Quit`, which closes the connection and leaves the rest
/// unsent. A UI side that has gone away (`disconnected`) closes it too.
pub fn plan_actions(actions: &Vec<WsAction>, disconnected: bool) -> (r: ActionPlan)
    ensures
        r.requests@.len() <= actions@.len(),
        forall|j: int| 0 <= j < r.requests@.len() ==> !(#[trigger] actions@[j] is Quit),
        r.requests@.len() == actions@.len() || actions@[r.requests@.len() as int] is Quit,
        r.requests@ == actions@.take(r.requests@.len() as int).map_values(
            |a: WsAction| request_of(a)->0,
        ),
        r.close == (r.requests@.len() < actions@.len() || disconnected),
{
    let mut requests: Vec<ClientMessage> = Vec::new();
    let mut i: usize = 0;
    while i < actions.len()
        invariant
            i <= actions@.len(),
            requests@.len() == i,
            forall|j: int| 0 <= j < i ==> !(#[trigger] actions@[j] is Quit),
            requests@ == actions@.take(i as int).map_values(|a: WsAction| request_of(a)->0),
        decreases actions@.len() - i,
    {
        match action_request(&actions[i]) {
            Some(req) => {
                requests.push(req);
                assert(actions@.take(i + 1) =~= actions@.take(i as int).push(actions@[i as int]));
                assert(requests@ =~= actions@.take(i + 1).map_values(|a: WsAction| request_of(a)->0));
            },
            None => {
                assert(actions@[i as int] is Quit);
                assert(requests@ == actions@.take(i as int).map_values(|a: WsAction| request_of(a)->0));
                return ActionPlan { requests, close: true };
            },
        }
        i += 1;
    }
    assert(actions@.take(i as int) =~= actions@);
    ActionPlan { requests, close: disconnected }
}

/// What the network task read from the connection.
#[derive(Debug, Clone, PartialEq, Eq)]
pub enum Incoming {
    /// A text frame holding a relay message.
    Frame(ServerMessage),
    /// A text frame that did not parse as a relay message.
    Unparsed,
    /// A frame of another kind.
    Other,
    /// The relay closed the connection.
    Close,
    /// The stream ended.
    Ended,
    /// Reading failed.
    Error,
}

/// What the network task hands the UI for one read, and whether the
/// connection is finished: a relay message becomes its event; unreadable and
/// other frames are skipped; a close, the end of the stream or an error
/// finishes the connection and tells the UI to quit.
pub fn incoming_event(incoming: Incoming) -> (r: (Option<WsEvent>, bool))
    ensures
        incoming matches Incoming::Frame(m) ==> r == (event_of(m), false),
        (incoming is Unparsed || incoming is Other) ==> r == (None::<WsEvent>, false),
        (incoming is Close || incoming is Ended || incoming is Error) ==> r == (Some(WsEvent::Quit), true),
{
    match incoming {
        Incoming::Frame(m) => (server_event(m), false),
        Incoming::Unparsed => (None, false),
        Incoming::Other => (None, false),
        Incoming::Close => (Some(WsEvent::Quit), true),
        Incoming::Ended => (Some(WsEvent::Quit), true),
        Incoming::Error => (Some(WsEvent::Quit), true),
    }
}

/// The event that a relay message stands for, if the UI has one for it.
pub open spec fn event_of(msg: ServerMessage) -> Option<WsEvent> {
    match msg {
        ServerMessage::NewMessage(m) => Some(WsEvent::Message(m)),
        ServerMessage::UserLeft(u) => Some(WsEvent::UserRemove(u.id)),
        ServerMessage::UserJoined(u) => Some(WsEvent::UserAdd(u)),
        ServerMessage::UserNameChange(u) => Some(WsEvent::UserChange(u)),
        ServerMessage::SelfData(u) => Some(WsEvent::SelfInfo(u)),
        ServerMessage::UserData(u) => Some(WsEvent::UserInfo(u)),
        _ => None,
    }
}

/// The event that a relay message stands for, if the UI has one for it.
pub fn server_event(msg: ServerMessage) -> (r: Option<WsEvent>)
    ensures
        r == event_of(msg),
{
    match msg {
        ServerMessage::NewMessage(m) => Some(WsEvent::Message(m)),
        ServerMessage::UserLeft(u) => Some(WsEvent::UserRemove(u.id)),
        ServerMessage::UserJoined(u) => Some(WsEvent::UserAdd(u)),
        ServerMessage::UserNameChange(u) => Some(WsEvent::UserChange(u)),
        ServerMessage::SelfData(u) => Some(WsEvent::SelfInfo(u)),
        ServerMessage::UserData(u) => Some(WsEvent::UserInfo(u)),
        _ => None,
    }
}

/// A log entry for a message.
pub fn message(msg: Message) -> (r: RoomEvent)
    ensures
        r == RoomEvent::Message(msg),
{
    RoomEvent::Message(msg)
}

/// A log entry for a departure.
pub fn left(usr: Identity) -> (r: RoomEvent)
    ensures
        r == RoomEvent::UserLeft(usr),
{
    RoomEvent::UserLeft(usr)
}

/// A log entry for an arrival.
pub fn joined(usr: Identity) -> (r: RoomEvent)
    ensures
        r == RoomEvent::UserJoined(usr),
{
    RoomEvent::UserJoined(usr)
}

/// A log entry for a rename.
pub fn name_change(from: String, to: String) -> (r: RoomEvent)
    ensures
        r == (RoomEvent::UserNameChange { from, to }),
{
    RoomEvent::UserNameChange { from, to }
}

} // verus!

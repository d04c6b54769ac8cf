//! The per-connection protocol state machine of the relay. The connection's
//! task feeds it one event at a time (a frame, a broadcast, a shutdown) and
//! carries out the effects it returns.

use vstd::prelude::*;
use vstd::string::StrSliceExecFns;
use crate::moderation::{GateModel, ModerationGate, ModerationOptions, ModerationOutcome};
use crate::registry::{same_channels, RegistryModel, RoomRegistry};
use crate::types::{identity_text, ClientMessage, Identity, Message, ServerMessage, User, MAX_NAME_LENGTH};

verus! {

/// Relies on uuid's `Uuid::new_v4` and `Uuid::as_u128`: a random version-4
/// UUID, as its 128 bits.
#[verifier::external_body]
fn new_identity() -> Identity {
    uuid::Uuid::new_v4().as_u128()
}

/// Relies on names' `Generator` with numbered naming: a random name.
#[verifier::external_body]
fn generated_name() -> String {
    names::Generator::with_naming(names::Name::Numbered).next().unwrap_or_default()
}

/// One input of a session.
#[derive(Debug, Clone, PartialEq, Eq)]
pub enum SessionEvent {
    /// A text frame that parsed as a command.
    Command(ClientMessage),
    /// A text frame that did not parse as a command.
    Text(String),
    /// The peer closed the connection.
    CloseFrame,
    /// A frame of another kind (binary, ping).
    OtherFrame,
    /// An event of the room's broadcast channel.
    Broadcast(ServerMessage),
    /// The broadcast channel dropped this many events for this session.
    Lagged(u64),
    /// The broadcast channel is closed.
    ChannelClosed,
    /// The relay is shutting down.
    Shutdown,
    /// Reading from or writing to the connection failed.
    TransportError,
}

/// What the connection's task does on the session's behalf.
#[derive(Debug, Clone, PartialEq, Eq)]
pub enum Effect {
    /// Send to this connection only.
    Reply(ServerMessage),
    /// Send to everyone in the room.
    Publish(ServerMessage),
    /// Close this connection.
    CloseSocket,
}

/// A session as the contracts see it: who it serves, in which room, whether
/// it is still registered there, and whether it has ended.
pub struct SessionModel {
    pub id: Identity,
    pub key: Seq<char>,
    pub registered: bool,
    pub closed: bool,
    pub gate: GateModel,
}

/// Whether `id` is registered in the live room `key`.
pub open spec fn is_member(reg: RegistryModel, key: Seq<char>, id: Identity) -> bool {
    reg.rooms.contains_key(key) && reg.rooms[key].members.contains_key(id)
}

/// The announcement of a session's exit: its participant's Left, where it is
/// still registered and present.
pub open spec fn exit_effects(s: SessionModel, reg: RegistryModel) -> Seq<Effect> {
    if s.registered && is_member(reg, s.key, s.id) {
        seq![Effect::Publish(ServerMessage::UserLeft(reg.rooms[s.key].members[s.id]))]
    } else {
        Seq::empty()
    }
}

/// The registry after a session's exit: its participant deregistered, and the
/// room removed if that left it empty.
pub open spec fn exit_registry(s: SessionModel, reg: RegistryModel) -> RegistryModel {
    if s.registered {
        reg.leave(s.key, s.id)
    } else {
        reg
    }
}

/// The session after `text` was handed to its moderation check.
pub open spec fn moderated(s: SessionModel, text: Seq<char>) -> SessionModel {
    SessionModel { gate: GateModel { checked: s.gate.checked.push(text), ..s.gate }, ..s }
}

/// The session after its exit.
pub open spec fn exited(s: SessionModel) -> SessionModel {
    SessionModel { registered: false, closed: true, ..s }
}

/// What `id` sending a text leads to, for each verdict of the moderator: the
/// accepted text is published as its message; a ban is told to the sender alone.
pub open spec fn outcome_effects(id: Identity, o: ModerationOutcome) -> Seq<Effect> {
    match o {
        ModerationOutcome::Accepted(text) => seq![
            Effect::Publish(ServerMessage::NewMessage(Message { from: id, content: text })),
        ],
        ModerationOutcome::Banned { duration, reason } => seq![
            Effect::Reply(ServerMessage::Banned { duration, reason }),
        ],
    }
}

/// The answer to a request for the data of `id` in room `key`.
pub open spec fn user_reply(reg: RegistryModel, key: Seq<char>, id: Identity, own: bool) -> ServerMessage {
    if is_member(reg, key, id) {
        if own {
            ServerMessage::SelfData(reg.rooms[key].members[id])
        } else {
            ServerMessage::UserData(reg.rooms[key].members[id])
        }
    } else {
        ServerMessage::InvalidUser(id)
    }
}

/// Whether a name is too long to be taken.
pub open spec fn name_too_long(name: Seq<char>) -> bool {
    name.len() > MAX_NAME_LENGTH
}

/// What a rename of the session's participant to `name` leads to.
pub open spec fn rename_effects(s: SessionModel, reg: RegistryModel, name: String) -> Seq<Effect> {
    if name_too_long(name@) {
        seq![Effect::Reply(ServerMessage::NameTooLong(name))]
    } else if is_member(reg, s.key, s.id) {
        seq![Effect::Publish(ServerMessage::UserNameChange(User { id: s.id, name }))]
    } else {
        seq![Effect::Reply(ServerMessage::InvalidUser(s.id))]
    }
}

/// The registry after a rename of the session's participant to `name`.
pub open spec fn rename_registry(s: SessionModel, reg: RegistryModel, name: String) -> RegistryModel {
    if !name_too_long(name@) && is_member(reg, s.key, s.id) {
        reg.with_member(s.key, User { id: s.id, name })
    } else {
        reg
    }
}

/// Whether an event ends the session and closes the connection from this side.
pub open spec fn closes_socket(ev: SessionEvent) -> bool {
    ev is OtherFrame || ev is Shutdown || ev is TransportError
}

/// Whether an event ends the session.
pub open spec fn ends_session(ev: SessionEvent) -> bool {
    closes_socket(ev) || ev is CloseFrame || ev is ChannelClosed
}

/// The effects of one event on an active session that neither sends text nor
/// depends on the moderator.
pub open spec fn step_effects(s: SessionModel, reg: RegistryModel, ev: SessionEvent) -> Seq<Effect> {
    match ev {
        SessionEvent::Command(ClientMessage::ChangeUserName(name)) => rename_effects(s, reg, name),
        SessionEvent::Command(ClientMessage::GetUserData(id)) => seq![
            Effect::Reply(user_reply(reg, s.key, id, false)),
        ],
        SessionEvent::Command(ClientMessage::GetSelf) => seq![
            Effect::Reply(user_reply(reg, s.key, s.id, true)),
        ],
        SessionEvent::Broadcast(m) => seq![Effect::Reply(m)],
        SessionEvent::CloseFrame => exit_effects(s, reg),
        SessionEvent::ChannelClosed => exit_effects(s, reg),
        SessionEvent::OtherFrame => exit_effects(s, reg).push(Effect::CloseSocket),
        SessionEvent::Shutdown => exit_effects(s, reg).push(Effect::CloseSocket),
        SessionEvent::TransportError => exit_effects(s, reg).push(Effect::CloseSocket),
        _ => Seq::empty(),
    }
}

/// The registry after one event on an active session.
pub open spec fn step_registry(s: SessionModel, reg: RegistryModel, ev: SessionEvent) -> RegistryModel {
    match ev {
        SessionEvent::Command(ClientMessage::ChangeUserName(name)) => rename_registry(s, reg, name),
        _ => if ends_session(ev) {
            exit_registry(s, reg)
        } else {
            reg
        },
    }
}

/// The text that an event asks to publish, if it is a chat message: a
/// `SendMessage` command, or a frame that did not parse as a command.
pub open spec fn sent_text(ev: SessionEvent) -> Option<String> {
    match ev {
        SessionEvent::Command(ClientMessage::SendMessage(t)) => Some(t),
        SessionEvent::Text(t) => Some(t),
        _ => None,
    }
}

/// A rename beyond the length bound changes nothing in the registry and is
/// answered with `NameTooLong` to the sender alone; a rename within the bound
/// of a registered participant stores the new name and announces the
/// participant under it to the room.
pub proof fn lemma_rename_bound(s: SessionModel, reg: RegistryModel, name: String)
    ensures
        name_too_long(name@) ==> rename_registry(s, reg, name) == reg && rename_effects(s, reg, name)
            == seq![Effect::Reply(ServerMessage::NameTooLong(name))],
        !name_too_long(name@) && is_member(reg, s.key, s.id) ==> rename_registry(s, reg, name).rooms[s.key].members[s.id]
            == (User { id: s.id, name }) && rename_effects(s, reg, name) == seq![
            Effect::Publish(ServerMessage::UserNameChange(User { id: s.id, name })),
        ],
{
}

/// When the last participant of a room ends its session, whatever the cause,
/// its departure is announced once and the room is gone from the registry;
/// the emptiness check and the removal are one registry step.
pub proof fn lemma_last_exit_removes_room(s: SessionModel, reg: RegistryModel, ev: SessionEvent)
    requires
        s.registered,
        ends_session(ev),
        reg.rooms.contains_key(s.key),
        reg.rooms[s.key].members.dom() =~= set![s.id],
    ensures
        !step_registry(s, reg, ev).rooms.contains_key(s.key),
        step_effects(s, reg, ev)[0] == Effect::Publish(ServerMessage::UserLeft(reg.rooms[s.key].members[s.id])),
{
    let m1 = reg.without_member(s.key, s.id);
    assert(m1.rooms[s.key].members.dom() =~= Set::<Identity>::empty());
}

/// One connection's session.
pub struct Session {
    id: Identity,
    key: String,
    registered: bool,
    closed: bool,
    gate: ModerationGate,
}

impl View for Session {
    type V = SessionModel;

    closed spec fn view(&self) -> SessionModel {
        SessionModel {
            id: self.id,
            key: self.key@,
            registered: self.registered,
            closed: self.closed,
            gate: self.gate@,
        }
    }
}

impl Session {
    /// Opens the session of participant `id` named `name` in the room `key`:
    /// the room is looked up or created with the channel `fresh`, the
    /// participant registered, and its arrival announced to the room.
    pub fn start<C>(
        reg: &mut RoomRegistry<C>,
        key: String,
        id: Identity,
        name: String,
        fresh: C,
        options: &ModerationOptions,
    ) -> (r: (Session, Vec<Effect>))
        requires
            old(reg).wf(),
            options.rate_limit_interval_ms > 0,
        ensures
            final(reg).wf(),
            final(reg)@ == old(reg)@.join(key@, User { id, name }),
            same_channels(*old(reg), *final(reg)),
            !old(reg)@.rooms.contains_key(key@) ==> final(reg).channel_of(key@) == fresh,
            r.0@ == (SessionModel {
                id,
                key: key@,
                registered: true,
                closed: false,
                gate: GateModel { options: *options, checked: Seq::empty() },
            }),
            r.0.wf(),
            r.1@ == seq![Effect::Publish(ServerMessage::UserJoined(User { id, name }))],
    {
        let user = User { id, name };
        let announced = user.copied();
        reg.join(&key, user, fresh);
        let session = Session {
            id,
            key,
            registered: true,
            closed: false,
            gate: ModerationGate::new(options),
        };
        (session, vec![Effect::Publish(ServerMessage::UserJoined(announced))])
    }

    /// Opens a session for a new connection to the room `key`, under a fresh
    /// random identity and a generated name.
    pub fn connect<C>(reg: &mut RoomRegistry<C>, key: String, fresh: C, options: &ModerationOptions) -> (r: (
        Session,
        Vec<Effect>,
    ))
        requires
            old(reg).wf(),
            options.rate_limit_interval_ms > 0,
        ensures
            final(reg).wf(),
            same_channels(*old(reg), *final(reg)),
            !old(reg)@.rooms.contains_key(key@) ==> final(reg).channel_of(key@) == fresh,
            r.0@.key == key@,
            r.0@.registered,
            !r.0@.closed,
            r.0@.gate == (GateModel { options: *options, checked: Seq::empty() }),
            r.0.wf(),
            exists|u: User|
                u.id == r.0@.id && u.name@.len() <= MAX_NAME_LENGTH && final(reg)@ == old(reg)@.join(key@, u) && r.1@ == seq![
                    Effect::Publish(ServerMessage::UserJoined(u)),
                ],
    {
        let id = new_identity();
        let generated = generated_name();
        let name = if generated.as_str().unicode_len() <= MAX_NAME_LENGTH {
            generated
        } else {
            identity_text(id)
        };
        let r = Session::start(reg, key, id, name, fresh, options);
        assert(r.1@ == seq![Effect::Publish(ServerMessage::UserJoined(User { id, name }))]);
        r
    }

    /// The moderation check of the session can run: its rate-limit interval is above zero.
    pub open spec fn wf(&self) -> bool {
        self@.gate.options.rate_limit_interval_ms > 0
    }

    pub fn id(&self) -> (r: Identity)
        ensures
            r == self@.id,
    {
        self.id
    }

    pub fn key(&self) -> (r: &String)
        ensures
            r@ == self@.key,
    {
        &self.key
    }

    /// Whether the session has ended.
    pub fn is_closed(&self) -> (r: bool)
        ensures
            r == self@.closed,
    {
        self.closed
    }

    /// Announces the participant's departure, if still registered, and
    /// deregisters it; the room goes when that leaves it empty.
    fn exit_room<C>(&mut self, reg: &mut RoomRegistry<C>) -> (r: Vec<Effect>)
        requires
            old(reg).wf(),
        ensures
            final(reg).wf(),
            final(reg)@ == exit_registry(old(self)@, old(reg)@),
            same_channels(*old(reg), *final(reg)),
            r@ == exit_effects(old(self)@, old(reg)@),
            final(self)@ == exited(old(self)@),
    {
        let mut effects: Vec<Effect> = Vec::new();
        if self.registered {
            match reg.leave(&self.key, self.id) {
                Some(user) => effects.push(Effect::Publish(ServerMessage::UserLeft(user))),
                None => {},
            }
        }
        self.registered = false;
        self.closed = true;
        effects
    }

    fn change_name<C>(&mut self, reg: &mut RoomRegistry<C>, name: String) -> (r: Vec<Effect>)
        requires
            old(reg).wf(),
        ensures
            final(reg).wf(),
            final(reg)@ == rename_registry(old(self)@, old(reg)@, name),
            same_channels(*old(reg), *final(reg)),
            r@ == rename_effects(old(self)@, old(reg)@, name),
            final(self)@ == old(self)@,
    {
        if name.as_str().unicode_len() > MAX_NAME_LENGTH {
            return vec![Effect::Reply(ServerMessage::NameTooLong(name))];
        }
        match reg.rename(&self.key, self.id, name) {
            Some(user) => vec![Effect::Publish(ServerMessage::UserNameChange(user))],
            None => vec![Effect::Reply(ServerMessage::InvalidUser(self.id))],
        }
    }

    fn user_data<C>(&self, reg: &RoomRegistry<C>, id: Identity, own: bool) -> (r: ServerMessage)
        requires
            reg.wf(),
        ensures
            r == user_reply(reg@, self@.key, id, own),
    {
        match reg.lookup(&self.key, id) {
            Some(user) => if own {
                ServerMessage::SelfData(user)
            } else {
                ServerMessage::UserData(user)
            },
            None => ServerMessage::InvalidUser(id),
        }
    }

    /// Runs `text` through the moderator and turns its verdict into effects.
    fn send_message(&mut self, text: String) -> (r: Vec<Effect>)
        requires
            old(self).wf(),
        ensures
            final(self)@ == moderated(old(self)@, text@),
            exists|o: ModerationOutcome| r@ == outcome_effects(old(self)@.id, o),
    {
        let outcome = self.gate.evaluate(text);
        let ghost o = outcome;
        let r = publish_outcome(self.id, outcome);
        assert(r@ == outcome_effects(old(self)@.id, o));
        r
    }

    /// Handles one event. A closed session ignores everything. Otherwise text
    /// to publish goes through the moderator; renames and lookups are answered
    /// from the room's presence registry; broadcasts are forwarded; a lag is
    /// ignored; and whatever ends the connection announces the participant's
    /// departure once, deregisters it and closes the session.
    pub fn step<C>(&mut self, reg: &mut RoomRegistry<C>, ev: SessionEvent) -> (r: Vec<Effect>)
        requires
            old(reg).wf(),
            old(self).wf(),
        ensures
            final(reg).wf(),
            final(self).wf(),
            same_channels(*old(reg), *final(reg)),
            old(self)@.closed ==> r@.len() == 0 && final(self)@ == old(self)@
                && final(reg)@ == old(reg)@,
            !old(self)@.closed && sent_text(ev) is Some ==> final(self)@ == moderated(
                old(self)@,
                sent_text(ev)->0@,
            ) && final(reg)@ == old(reg)@
                && exists|o: ModerationOutcome| r@ == outcome_effects(old(self)@.id, o),
            !old(self)@.closed && sent_text(ev) is None ==> r@ == step_effects(old(self)@, old(reg)@, ev)
                && final(reg)@ == step_registry(old(self)@, old(reg)@, ev)
                && final(self)@ == (if ends_session(ev) { exited(old(self)@) } else { old(self)@ }),
    {
        if self.closed {
            return Vec::new();
        }
        match ev {
            SessionEvent::Command(cmd) => match cmd {
                ClientMessage::SendMessage(text) => self.send_message(text),
                ClientMessage::ChangeUserName(name) => self.change_name(reg, name),
                ClientMessage::GetUserData(id) => vec![Effect::Reply(self.user_data(reg, id, false))],
                ClientMessage::GetSelf => vec![Effect::Reply(self.user_data(reg, self.id, true))],
            },
            SessionEvent::Text(text) => self.send_message(text),
            SessionEvent::Broadcast(m) => vec![Effect::Reply(m)],
            SessionEvent::Lagged(_) => Vec::new(),
            SessionEvent::CloseFrame => self.exit_room(reg),
            SessionEvent::ChannelClosed => self.exit_room(reg),
            SessionEvent::OtherFrame => {
                let mut effects = self.exit_room(reg);
                effects.push(Effect::CloseSocket);
                effects
            },
            SessionEvent::Shutdown => {
                let mut effects = self.exit_room(reg);
                effects.push(Effect::CloseSocket);
                effects
            },
            SessionEvent::TransportError => {
                let mut effects = self.exit_room(reg);
                effects.push(Effect::CloseSocket);
                effects
            },
        }
    }
}

/// The effects of the moderator's verdict `outcome` on a text sent by `id`.
pub fn publish_outcome(id: Identity, outcome: ModerationOutcome) -> (r: Vec<Effect>)
    ensures
        r@ == outcome_effects(id, outcome),
{
    match outcome {
        ModerationOutcome::Accepted(text) => vec![
            Effect::Publish(ServerMessage::NewMessage(Message { from: id, content: text })),
        ],
        ModerationOutcome::Banned { duration, reason } => vec![
            Effect::Reply(ServerMessage::Banned { duration, reason }),
        ],
    }
}

} // verus!

//! Values that travel between relay and clients.

use vstd::prelude::*;

verus! {

/// Relies on `Duration`'s `Clone`, which std derives: the copy is equal to
/// the original.
pub assume_specification[ <std::time::Duration as Clone>::clone ](d: &std::time::Duration) -> (r:
    std::time::Duration)
    ensures
        r == *d,
;

/// The identity of a participant: the 128 bits of the UUID assigned when the
/// connection was accepted.
pub type Identity = u128;

/// The longest display name, in characters, that a participant may take: long
/// enough for the text of an identity, which stands in for a generated name
/// beyond the bound.
pub const MAX_NAME_LENGTH: usize = 36;

/// The lower-case hexadecimal digit of `n`, for `n` below 16.
pub open spec fn hex_digit(n: int) -> char {
    if n < 10 {
        ('0' as u32 + n) as char
    } else {
        ('a' as u32 + n - 10) as char
    }
}

/// The `k`-th four-bit group of `id`, counted from the most significant one.
pub open spec fn nibble(id: u128, k: int) -> int {
    (id as int / vstd::arithmetic::power2::pow2((4 * (31 - k)) as nat) as int) % 16
}

/// The hyphenated text form of a UUID given by its 128 bits: 32 lower-case
/// hexadecimal digits, most significant first, with a hyphen after the 8th,
/// 12th, 16th and 20th digit.
pub open spec fn uuid_text(id: u128) -> Seq<char> {
    Seq::new(
        36,
        |i: int|
            if i == 8 || i == 13 || i == 18 || i == 23 {
                '-'
            } else {
                hex_digit(
                    nibble(
                        id,
                        if i < 8 {
                            i
                        } else if i < 13 {
                            i - 1
                        } else if i < 18 {
                            i - 2
                        } else if i < 23 {
                            i - 3
                        } else {
                            i - 4
                        },
                    ),
                )
            },
    )
}

/// Relies on uuid's `Uuid::from_u128` (the bits, big-endian) and its
/// `Display`: the hyphenated lower-case form.
#[verifier::external_body]
pub(crate) fn identity_text(id: Identity) -> (r: String)
    ensures
        r@ == uuid_text(id),
{
    uuid::Uuid::from_u128(id).to_string()
}

/// A participant: its identity and its current display name.
#[derive(Debug, Clone, PartialEq, Eq, Hash)]
pub struct User {
    pub id: Identity,
    pub name: String,
}

/// A chat message: its author and its text.
#[derive(Debug, Clone, PartialEq, Eq, Hash)]
pub struct Message {
    pub from: Identity,
    pub content: String,
}

/// What the relay sends to a client.
#[derive(Debug, Clone, PartialEq, Eq)]
pub enum ServerMessage {
    NewMessage(Message),
    AllUsers(Vec<User>),
    UserNameChange(User),
    UserJoined(User),
    UserLeft(User),
    UserData(User),
    SelfData(User),
    UnsupportedMessage(String),
    InvalidUser(Identity),
    NameTooLong(String),
    Banned { duration: std::time::Duration, reason: String },
}

/// What a client sends to the relay.
#[derive(Debug, Clone, PartialEq, Eq)]
pub enum ClientMessage {
    ChangeUserName(String),
    SendMessage(String),
    GetUserData(Identity),
    GetSelf,
}

/// The answer of the relay's discovery endpoint.
#[derive(Debug, Clone, PartialEq, Eq)]
pub struct Discovery {
    pub version: String,
    pub available_rooms: Vec<String>,
}

impl User {
    pub fn new(id: Identity, name: String) -> (r: User)
        ensures
            r.id == id,
            r.name == name,
    {
        User { id, name }
    }

    pub fn get_id(&self) -> (r: Identity)
        ensures
            r == self.id,
    {
        self.id
    }

    pub fn get_name(&self) -> (r: &str)
        ensures
            r@ == self.name@,
    {
        self.name.as_str()
    }

    pub fn set_name(&mut self, name: String)
        ensures
            final(self).id == old(self).id,
            final(self).name == name,
    {
        self.name = name;
    }

    /// A copy of this participant, equal to it.
    pub fn copied(&self) -> (r: User)
        ensures
            r == *self,
    {
        User { id: self.id, name: self.name.clone() }
    }
}

impl Message {
    pub fn new(from: Identity, content: String) -> (r: Message)
        ensures
            r.from == from,
            r.content == content,
    {
        Message { from, content }
    }

    pub fn get_content(&self) -> (r: &str)
        ensures
            r@ == self.content@,
    {
        self.content.as_str()
    }

    pub fn get_author(&self) -> (r: Identity)
        ensures
            r == self.from,
    {
        self.from
    }

    /// A copy of this message, equal to it.
    pub fn copied(&self) -> (r: Message)
        ensures
            r == *self,
    {
        Message { from: self.from, content: self.content.clone() }
    }
}

/// The identity that a relay message is about, if it is about one.
pub open spec fn subject_of(m: ServerMessage) -> Option<Identity> {
    match m {
        ServerMessage::NewMessage(msg) => Some(msg.from),
        ServerMessage::UserNameChange(u) => Some(u.id),
        ServerMessage::UserJoined(u) => Some(u.id),
        ServerMessage::UserLeft(u) => Some(u.id),
        ServerMessage::UserData(u) => Some(u.id),
        ServerMessage::SelfData(u) => Some(u.id),
        ServerMessage::InvalidUser(id) => Some(id),
        _ => None,
    }
}

impl ServerMessage {
    /// Whether this message is about the participant `id`.
    pub fn is_user(&self, id: Identity) -> (r: bool)
        ensures
            r == (subject_of(*self) == Some(id)),
    {
        match self {
            ServerMessage::NewMessage(message) => message.from == id,
            ServerMessage::UserNameChange(user) => user.id == id,
            ServerMessage::UserJoined(user) => user.id == id,
            ServerMessage::UserLeft(user) => user.id == id,
            ServerMessage::UserData(user) => user.id == id,
            ServerMessage::SelfData(user) => user.id == id,
            ServerMessage::InvalidUser(uuid) => *uuid == id,
            _ => false,
        }
    }
}

} // verus!

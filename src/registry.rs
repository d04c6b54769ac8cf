//! The registry of live rooms: each room key maps to at most one set of room
//! components, created by the first join and removed once the room is empty.

use vstd::prelude::*;
use crate::room::{keyed_by_id, Room};
use crate::types::{Discovery, Identity, User};

verus! {

/// The path at which the relay reports its protocol version.
pub const VERSION_PATH: &'static str = "/version";

/// What the registry knows of one live room: the generation number given to
/// its components when they were created, and its participants.
pub struct RoomModel {
    pub generation: nat,
    pub members: Map<Identity, User>,
}

/// The registry as a map from room key to room, and the generation number that
/// the next created room will get.
pub struct RegistryModel {
    pub rooms: Map<Seq<char>, RoomModel>,
    pub next_generation: nat,
}

impl RegistryModel {
    /// The registry after a join's lookup of `key`: unchanged where the key is
    /// live; otherwise with a new empty room under the next generation.
    pub open spec fn get_or_create(self, key: Seq<char>) -> RegistryModel {
        if self.rooms.contains_key(key) {
            self
        } else {
            RegistryModel {
                rooms: self.rooms.insert(
                    key,
                    RoomModel { generation: self.next_generation, members: Map::empty() },
                ),
                next_generation: self.next_generation + 1,
            }
        }
    }

    /// The registry with `user` registered in the live room `key`.
    pub open spec fn with_member(self, key: Seq<char>, user: User) -> RegistryModel {
        RegistryModel {
            rooms: self.rooms.insert(
                key,
                RoomModel {
                    generation: self.rooms[key].generation,
                    members: self.rooms[key].members.insert(user.id, user),
                },
            ),
            next_generation: self.next_generation,
        }
    }

    /// A join: lookup-or-create of the room, then registration of `user` in it.
    pub open spec fn join(self, key: Seq<char>, user: User) -> RegistryModel {
        self.get_or_create(key).with_member(key, user)
    }

    /// The registry with the room `key` removed if it has no participant.
    pub open spec fn remove_if_empty(self, key: Seq<char>) -> RegistryModel {
        if self.rooms.contains_key(key) && self.rooms[key].members.dom().is_empty() {
            RegistryModel { rooms: self.rooms.remove(key), next_generation: self.next_generation }
        } else {
            self
        }
    }

    /// The registry with `id` deregistered from the room `key`, without removing the room.
    pub open spec fn without_member(self, key: Seq<char>, id: Identity) -> RegistryModel {
        if self.rooms.contains_key(key) {
            RegistryModel {
                rooms: self.rooms.insert(
                    key,
                    RoomModel {
                        generation: self.rooms[key].generation,
                        members: self.rooms[key].members.remove(id),
                    },
                ),
                next_generation: self.next_generation,
            }
        } else {
            self
        }
    }

    /// A leave: deregistration of `id`, then removal of the room if that left it empty.
    pub open spec fn leave(self, key: Seq<char>, id: Identity) -> RegistryModel {
        self.without_member(key, id).remove_if_empty(key)
    }
}

/// Joins to one key resolve to one room: a second join finds the room that the
/// first one found or created and creates nothing, and a room created by the
/// first join has a generation that no other live room has.
pub proof fn lemma_joins_share_one_room(m: RegistryModel, key: Seq<char>, a: User, b: User)
    requires
        model_wf(m),
    ensures
        m.join(key, a).get_or_create(key) == m.join(key, a),
        m.join(key, a).join(key, b).rooms.dom() == m.rooms.dom().insert(key),
        m.join(key, a).join(key, b).rooms[key].generation == m.get_or_create(key).rooms[key].generation,
        m.join(key, a).join(key, b).next_generation == m.get_or_create(key).next_generation,
        m.join(key, a).join(key, b).rooms[key].members.contains_key(a.id),
        m.join(key, a).join(key, b).rooms[key].members.contains_key(b.id),
        forall|other: Seq<char>|
            other != key && #[trigger] m.rooms.contains_key(other) ==> m.join(key, a).join(
                key,
                b,
            ).rooms[other].generation != m.join(key, a).join(key, b).rooms[key].generation,
{
}

/// When the last participant of a room leaves, the room is gone; a later join
/// to its key creates a new, empty room with a generation of its own, which
/// then holds only the joining participant.
pub proof fn lemma_last_leave_removes_room(m: RegistryModel, key: Seq<char>, id: Identity, later: User)
    requires
        model_wf(m),
        m.rooms.contains_key(key),
        m.rooms[key].members.dom() =~= set![id],
    ensures
        !m.leave(key, id).rooms.contains_key(key),
        m.leave(key, id).get_or_create(key).rooms[key].members.dom().is_empty(),
        m.leave(key, id).get_or_create(key).rooms[key].generation != m.rooms[key].generation,
        m.leave(key, id).join(key, later).rooms[key].members.dom() =~= set![later.id],
{
    let m1 = m.without_member(key, id);
    assert(m1.rooms[key].members.dom() =~= Set::<Identity>::empty());
    assert(m.leave(key, id).get_or_create(key).rooms[key].members.dom() =~= Set::<Identity>::empty());
}

/// The components of one live room: its key, its generation, its presence
/// registry and the sending end of its broadcast channel.
pub struct RoomComponents<C> {
    pub key: String,
    pub generation: Ghost<nat>,
    pub room: Room,
    pub tx: C,
}

impl<C> RoomComponents<C> {
    /// Components of a new room, with no participant and generation zero.
    pub fn new(key: String, tx: C) -> (r: RoomComponents<C>)
        ensures
            r.key == key,
            r.generation@ == 0,
            r.room@ == Map::<Identity, User>::empty(),
            r.room.wf(),
            r.tx == tx,
    {
        RoomComponents { key, generation: Ghost(0), room: Room::new(), tx }
    }

    pub open spec fn model(&self) -> RoomModel {
        RoomModel { generation: self.generation@, members: self.room@ }
    }
}

/// No two entries share a room key.
pub open spec fn keys_unique<C>(s: Seq<RoomComponents<C>>) -> bool {
    forall|i: int, j: int|
        0 <= i < s.len() && 0 <= j < s.len() && i != j ==> s[i].key@ != s[j].key@
}

/// The map from room key to room that a sequence of entries stands for.
pub open spec fn rooms_of<C>(s: Seq<RoomComponents<C>>) -> Map<Seq<char>, RoomModel>
    decreases s.len(),
{
    if s.len() == 0 {
        Map::empty()
    } else {
        rooms_of(s.drop_last()).insert(s.last().key@, s.last().model())
    }
}

proof fn lemma_rooms_of_lookup<C>(s: Seq<RoomComponents<C>>, i: int)
    requires
        keys_unique(s),
        0 <= i < s.len(),
    ensures
        rooms_of(s).contains_key(s[i].key@),
        rooms_of(s)[s[i].key@] == s[i].model(),
    decreases s.len(),
{
    if i < s.len() - 1 {
        assert(s.drop_last()[i] == s[i]);
        assert(s[i].key@ != s[s.len() - 1].key@);
        lemma_rooms_of_lookup(s.drop_last(), i);
    }
}

proof fn lemma_rooms_of_absent<C>(s: Seq<RoomComponents<C>>, k: Seq<char>)
    requires
        forall|i: int| 0 <= i < s.len() ==> s[i].key@ != k,
    ensures
        !rooms_of(s).contains_key(k),
    decreases s.len(),
{
    if s.len() > 0 {
        assert(s[s.len() - 1].key@ != k);
        lemma_rooms_of_absent(s.drop_last(), k);
    }
}

proof fn lemma_rooms_of_update<C>(s: Seq<RoomComponents<C>>, i: int, e: RoomComponents<C>)
    requires
        keys_unique(s),
        0 <= i < s.len(),
        e.key@ == s[i].key@,
    ensures
        rooms_of(s.update(i, e)) == rooms_of(s).insert(e.key@, e.model()),
    decreases s.len(),
{
    let t = s.update(i, e);
    if i == s.len() - 1 {
        assert(t.drop_last() =~= s.drop_last());
        assert(rooms_of(t) =~= rooms_of(s).insert(e.key@, e.model()));
    } else {
        assert(t.drop_last() =~= s.drop_last().update(i, e));
        assert(s[i].key@ != s[s.len() - 1].key@);
        lemma_rooms_of_update(s.drop_last(), i, e);
        assert(rooms_of(t) =~= rooms_of(s).insert(e.key@, e.model()));
    }
}

proof fn lemma_rooms_of_remove<C>(s: Seq<RoomComponents<C>>, i: int)
    requires
        keys_unique(s),
        0 <= i < s.len(),
    ensures
        rooms_of(s.remove(i)) == rooms_of(s).remove(s[i].key@),
    decreases s.len(),
{
    let k = s[i].key@;
    let t = s.remove(i);
    if i == s.len() - 1 {
        assert(t =~= s.drop_last());
        assert forall|j: int| 0 <= j < s.drop_last().len() implies s.drop_last()[j].key@ != k by {
            assert(s.drop_last()[j] == s[j]);
        }
        lemma_rooms_of_absent(s.drop_last(), k);
        assert(rooms_of(t) =~= rooms_of(s).remove(k));
    } else {
        assert(t.drop_last() =~= s.drop_last().remove(i));
        assert(t.last() == s.last());
        assert(s[i].key@ != s[s.len() - 1].key@);
        lemma_rooms_of_remove(s.drop_last(), i);
        assert(rooms_of(t) =~= rooms_of(s).remove(k));
    }
}

proof fn lemma_rooms_of_len<C>(s: Seq<RoomComponents<C>>)
    requires
        keys_unique(s),
    ensures
        rooms_of(s).dom().finite(),
        rooms_of(s).dom().len() == s.len(),
    decreases s.len(),
{
    if s.len() > 0 {
        let t = s.drop_last();
        assert forall|i: int| 0 <= i < t.len() implies t[i].key@ != s.last().key@ by {
            assert(t[i] == s[i]);
        }
        lemma_rooms_of_absent(t, s.last().key@);
        lemma_rooms_of_len(t);
    }
}

/// The channel of the entry with key `k`.
pub open spec fn channel_in<C>(s: Seq<RoomComponents<C>>, k: Seq<char>) -> C {
    s[choose|j: int| 0 <= j < s.len() && s[j].key@ == k].tx
}

proof fn lemma_channel_at<C>(s: Seq<RoomComponents<C>>, i: int)
    requires
        keys_unique(s),
        0 <= i < s.len(),
    ensures
        channel_in(s, s[i].key@) == s[i].tx,
{
    let j = choose|j: int| 0 <= j < s.len() && s[j].key@ == s[i].key@;
    assert(0 <= j < s.len() && s[j].key@ == s[i].key@);
}

/// The live rooms, each under its own key.
pub struct RoomRegistry<C> {
    entries: Vec<RoomComponents<C>>,
    next_generation: Ghost<nat>,
}

impl<C> View for RoomRegistry<C> {
    type V = RegistryModel;

    closed spec fn view(&self) -> RegistryModel {
        RegistryModel { rooms: rooms_of(self.entries@), next_generation: self.next_generation@ }
    }
}

/// Every room's participants are stored under their own identities, every
/// live room's generation was handed out before the next one, and no two live
/// rooms share a generation.
pub open spec fn model_wf(m: RegistryModel) -> bool {
    &&& forall|k: Seq<char>| #[trigger]
        m.rooms.contains_key(k) ==> keyed_by_id(m.rooms[k].members) && m.rooms[k].generation
            < m.next_generation
    &&& forall|k1: Seq<char>, k2: Seq<char>|
        #[trigger] m.rooms.contains_key(k1) && #[trigger] m.rooms.contains_key(k2) && k1 != k2
            ==> m.rooms[k1].generation != m.rooms[k2].generation
}

/// No two entries share a key or a generation, every presence registry is
/// well formed, and every generation was handed out before `next`.
pub open spec fn entries_wf<C>(s: Seq<RoomComponents<C>>, next: nat) -> bool {
    &&& keys_unique(s)
    &&& forall|i: int|
        0 <= i < s.len() ==> (#[trigger] s[i]).room.wf() && s[i].generation@ < next
    &&& forall|i: int, j: int|
        0 <= i < s.len() && 0 <= j < s.len() && i != j ==> s[i].generation@ != s[j].generation@
}

/// Taking the entry at `i` out and putting `e` back in its place, with the same
/// key and generation, keeps the entries well formed and changes one room.
proof fn lemma_put_back<C>(s: Seq<RoomComponents<C>>, next: nat, i: int, e: RoomComponents<C>)
    requires
        entries_wf(s, next),
        0 <= i < s.len(),
        e.key@ == s[i].key@,
        e.generation == s[i].generation,
        e.room.wf(),
    ensures
        s.remove(i).insert(i, e) == s.update(i, e),
        entries_wf(s.update(i, e), next),
        rooms_of(s.update(i, e)) == rooms_of(s).insert(e.key@, e.model()),
{
    assert(s.remove(i).insert(i, e) =~= s.update(i, e));
    lemma_rooms_of_update(s, i, e);
}

/// Putting an entry back in its place with its channel keeps every channel.
proof fn lemma_channels_after_put_back<C>(a: RoomRegistry<C>, b: RoomRegistry<C>, i: int)
    requires
        a.wf(),
        b.wf(),
        0 <= i < a.entries@.len(),
        b.entries@ == a.entries@.update(i, b.entries@[i]),
        b.entries@[i].key@ == a.entries@[i].key@,
        b.entries@[i].tx == a.entries@[i].tx,
    ensures
        same_channels(a, b),
{
    assert forall|k: Seq<char>|
        #[trigger] a@.rooms.contains_key(k) && b@.rooms.contains_key(k) implies a.channel_of(k)
            == b.channel_of(k) by {
        let j = a.index_of_live(k);
        lemma_channel_at(a.entries@, j);
        lemma_channel_at(b.entries@, j);
    }
}

/// Every room live in both `a` and `b` has the same channel in both.
pub open spec fn same_channels<C>(a: RoomRegistry<C>, b: RoomRegistry<C>) -> bool {
    forall|k: Seq<char>|
        #[trigger] a@.rooms.contains_key(k) && b@.rooms.contains_key(k) ==> a.channel_of(k)
            == b.channel_of(k)
}

impl<C> RoomRegistry<C> {
    /// The sending end of the broadcast channel of the live room `key`.
    pub closed spec fn channel_of(&self, key: Seq<char>) -> C {
        channel_in(self.entries@, key)
    }

    pub closed spec fn wf(&self) -> bool {
        entries_wf(self.entries@, self.next_generation@)
    }

    /// A well-formed registry has a well-formed model.
    pub proof fn lemma_wf_model(&self)
        requires
            self.wf(),
        ensures
            model_wf(self@),
    {
        assert forall|k: Seq<char>| #[trigger] self@.rooms.contains_key(k) implies keyed_by_id(
            self@.rooms[k].members,
        ) && self@.rooms[k].generation < self@.next_generation by {
            let i = self.index_of_live(k);
            lemma_rooms_of_lookup(self.entries@, i);
        }
        assert forall|k1: Seq<char>, k2: Seq<char>|
            #[trigger] self@.rooms.contains_key(k1) && #[trigger] self@.rooms.contains_key(k2) && k1
                != k2 implies self@.rooms[k1].generation != self@.rooms[k2].generation by {
            let i = self.index_of_live(k1);
            let j = self.index_of_live(k2);
            lemma_rooms_of_lookup(self.entries@, i);
            lemma_rooms_of_lookup(self.entries@, j);
        }
    }
    /// The position of the entry of a live room.
    proof fn index_of_live(&self, k: Seq<char>) -> (i: int)
        requires
            keys_unique(self.entries@),
            rooms_of(self.entries@).contains_key(k),
        ensures
            0 <= i < self.entries@.len(),
            self.entries@[i].key@ == k,
    {
        if forall|i: int| 0 <= i < self.entries@.len() ==> self.entries@[i].key@ != k {
            lemma_rooms_of_absent(self.entries@, k);
        }
        choose|i: int| 0 <= i < self.entries@.len() && self.entries@[i].key@ == k
    }

    pub fn new() -> (r: RoomRegistry<C>)
        ensures
            r@.rooms == Map::<Seq<char>, RoomModel>::empty(),
            r@.next_generation == 0,
            r.wf(),
    {
        let r = RoomRegistry { entries: Vec::new(), next_generation: Ghost(0) };
        assert(rooms_of(r.entries@) =~= Map::<Seq<char>, RoomModel>::empty());
        r
    }

    fn find(&self, key: &String) -> (r: Option<usize>)
        requires
            self.wf(),
        ensures
            match r {
                Some(i) => i < self.entries@.len() && self.entries@[i as int].key@ == key@
                    && self@.rooms.contains_key(key@) && self@.rooms[key@]
                    == self.entries@[i as int].model(),
                None => !self@.rooms.contains_key(key@) && forall|j: int|
                    0 <= j < self.entries@.len() ==> self.entries@[j].key@ != key@,
            },
    {
        let mut i: usize = 0;
        while i < self.entries.len()
            invariant
                self.wf(),
                i <= self.entries@.len(),
                forall|j: int| 0 <= j < i ==> self.entries@[j].key@ != key@,
            decreases self.entries@.len() - i,
        {
            if self.entries[i].key == *key {
                proof {
                    lemma_rooms_of_lookup(self.entries@, i as int);
                }
                return Some(i);
            }
            i += 1;
        }
        proof {
            lemma_rooms_of_absent(self.entries@, key@);
        }
        None
    }

    /// Whether `key` names a live room.
    pub fn contains(&self, key: &String) -> (r: bool)
        requires
            self.wf(),
        ensures
            r == self@.rooms.contains_key(key@),
    {
        self.find(key).is_some()
    }

    /// Looks up the room `key`, creating it with the channel `fresh` when it is
    /// not live. Two lookups of one key with no removal between them find the
    /// same components.
    pub fn get_or_create(&mut self, key: &String, fresh: C)
        requires
            old(self).wf(),
        ensures
            final(self).wf(),
            final(self)@ == old(self)@.get_or_create(key@),
            final(self)@.rooms.contains_key(key@),
            same_channels(*old(self), *final(self)),
            !old(self)@.rooms.contains_key(key@) ==> final(self).channel_of(key@) == fresh,
    {
        match self.find(key) {
            Some(_) => {},
            None => {
                let ghost g = self.next_generation@;
                let mut e = RoomComponents::new(key.clone(), fresh);
                e.generation = Ghost(g);
                let ghost s = self.entries@;
                self.entries.push(e);
                self.next_generation = Ghost(g + 1);
                proof {
                    assert forall|a: int| 0 <= a < s.len() implies self.entries@[a] == s[a] by {}
                    assert(entries_wf(self.entries@, self.next_generation@));
                    assert(self.entries@.drop_last() =~= s);
                    assert(self.entries@.last() == e);
                    assert(e.model() == RoomModel { generation: g, members: Map::empty() });
                    assert(self@ == old(self)@.get_or_create(key@));
                    lemma_rooms_of_lookup(self.entries@, s.len() as int);
                    lemma_channel_at(self.entries@, s.len() as int);
                    assert forall|k: Seq<char>|
                        #[trigger] old(self)@.rooms.contains_key(k) && self@.rooms.contains_key(
                            k,
                        ) implies old(self).channel_of(k) == self.channel_of(k) by {
                        let j = old(self).index_of_live(k);
                        lemma_channel_at(s, j);
                        lemma_channel_at(self.entries@, j);
                    }
                }
            },
        }
    }

    /// Registers `user` in the room `key`, which is created with the channel
    /// `fresh` when it is not live.
    pub fn join(&mut self, key: &String, user: User, fresh: C)
        requires
            old(self).wf(),
        ensures
            final(self).wf(),
            final(self)@ == old(self)@.join(key@, user),
            final(self)@.rooms.contains_key(key@),
            same_channels(*old(self), *final(self)),
            !old(self)@.rooms.contains_key(key@) ==> final(self).channel_of(key@) == fresh,
    {
        self.get_or_create(key, fresh);
        let ghost mid = self@;
        let ghost middle = *self;
        let ghost s = self.entries@;
        let i = self.find(key).unwrap();
        let mut e = self.entries.remove(i);
        e.room.add_user(user);
        self.entries.insert(i, e);
        proof {
            lemma_put_back(s, self.next_generation@, i as int, e);
            assert(self@.rooms =~= mid.with_member(key@, user).rooms);
            lemma_channels_after_put_back(middle, *self, i as int);
        }
    }

    /// Deregisters `id` from the room `key`, then removes the room if that left
    /// it empty; returns the participant that was removed.
    pub fn leave(&mut self, key: &String, id: Identity) -> (r: Option<User>)
        requires
            old(self).wf(),
        ensures
            final(self).wf(),
            final(self)@ == old(self)@.leave(key@, id),
            same_channels(*old(self), *final(self)),
            match r {
                Some(u) => old(self)@.rooms.contains_key(key@)
                    && old(self)@.rooms[key@].members.contains_key(id)
                    && u == old(self)@.rooms[key@].members[id],
                None => !(old(self)@.rooms.contains_key(key@)
                    && old(self)@.rooms[key@].members.contains_key(id)),
            },
    {
        let r = self.remove_member(key, id);
        self.remove_if_empty(key);
        r
    }

    /// Deregisters `id` from the room `key`, keeping the room even when empty.
    pub fn remove_member(&mut self, key: &String, id: Identity) -> (r: Option<User>)
        requires
            old(self).wf(),
        ensures
            final(self).wf(),
            final(self)@ == old(self)@.without_member(key@, id),
            same_channels(*old(self), *final(self)),
            match r {
                Some(u) => old(self)@.rooms.contains_key(key@)
                    && old(self)@.rooms[key@].members.contains_key(id)
                    && u == old(self)@.rooms[key@].members[id],
                None => !(old(self)@.rooms.contains_key(key@)
                    && old(self)@.rooms[key@].members.contains_key(id)),
            },
    {
        match self.find(key) {
            None => None,
            Some(i) => {
                let ghost s = self.entries@;
                let mut e = self.entries.remove(i);
                let r = e.room.remove_user(id);
                self.entries.insert(i, e);
                proof {
                    lemma_put_back(s, self.next_generation@, i as int, e);
                    lemma_channels_after_put_back(*old(self), *self, i as int);
                    assert(self@.rooms =~= old(self)@.without_member(key@, id).rooms);
                }
                r
            },
        }
    }

    /// Removes the room `key` if it is live and has no participant; says whether it did.
    pub fn remove_if_empty(&mut self, key: &String) -> (r: bool)
        requires
            old(self).wf(),
        ensures
            final(self).wf(),
            final(self)@ == old(self)@.remove_if_empty(key@),
            same_channels(*old(self), *final(self)),
            r == (old(self)@.rooms.contains_key(key@)
                && old(self)@.rooms[key@].members.dom().is_empty()),
    {
        match self.find(key) {
            None => false,
            Some(i) => {
                if self.entries[i].room.is_empty() {
                    let ghost s = self.entries@;
                    self.entries.remove(i);
                    proof {
                        lemma_rooms_of_remove(s, i as int);
                        assert forall|a: int, b: int|
                            0 <= a < self.entries@.len() && 0 <= b < self.entries@.len() && a
                                != b implies self.entries@[a].key@ != self.entries@[b].key@
                            && self.entries@[a].generation@ != self.entries@[b].generation@ by {
                            let a0 = if a < i { a } else { a + 1 };
                            let b0 = if b < i { b } else { b + 1 };
                            assert(self.entries@[a] == s[a0]);
                            assert(self.entries@[b] == s[b0]);
                        }
                        assert forall|a: int| 0 <= a < self.entries@.len() implies (
                        #[trigger] self.entries@[a]).room.wf() && self.entries@[a].generation@
                            < self.next_generation@ by {
                            let a0 = if a < i { a } else { a + 1 };
                            assert(self.entries@[a] == s[a0]);
                        }
                        assert forall|k: Seq<char>|
                            #[trigger] old(self)@.rooms.contains_key(k) && self@.rooms.contains_key(
                                k,
                            ) implies old(self).channel_of(k) == self.channel_of(k) by {
                            let a = self.index_of_live(k);
                            let a0 = if a < i { a } else { a + 1 };
                            assert(self.entries@[a] == s[a0]);
                            lemma_channel_at(s, a0);
                            lemma_channel_at(self.entries@, a);
                        }
                    }
                    true
                } else {
                    false
                }
            },
        }
    }

    /// Sets the name of participant `id` of the room `key`; returns the
    /// participant as it now is, or nothing where there is no such participant.
    pub fn rename(&mut self, key: &String, id: Identity, name: String) -> (r: Option<User>)
        requires
            old(self).wf(),
        ensures
            final(self).wf(),
            old(self)@.rooms.contains_key(key@) && old(self)@.rooms[key@].members.contains_key(id)
                ==> r == Some(User { id, name }) && final(self)@ == old(self)@.with_member(
                key@,
                User { id, name },
            ),
            !(old(self)@.rooms.contains_key(key@) && old(self)@.rooms[key@].members.contains_key(
                id,
            )) ==> r.is_none() && final(self)@ == old(self)@,
            same_channels(*old(self), *final(self)),
    {
        match self.find(key) {
            None => None,
            Some(i) => {
                let ghost s = self.entries@;
                let mut e = self.entries.remove(i);
                let r = e.room.rename_user(id, name);
                self.entries.insert(i, e);
                proof {
                    lemma_put_back(s, self.next_generation@, i as int, e);
                    lemma_channels_after_put_back(*old(self), *self, i as int);
                    if r.is_some() {
                        assert(self@.rooms =~= old(self)@.with_member(key@, User { id, name }).rooms);
                    } else {
                        assert(self@.rooms =~= old(self)@.rooms);
                    }
                }
                r
            },
        }
    }

    /// The participant `id` of the room `key`, if there is one.
    pub fn lookup(&self, key: &String, id: Identity) -> (r: Option<User>)
        requires
            self.wf(),
        ensures
            match r {
                Some(u) => self@.rooms.contains_key(key@) && self@.rooms[key@].members.contains_key(
                    id,
                ) && u == self@.rooms[key@].members[id],
                None => !(self@.rooms.contains_key(key@) && self@.rooms[key@].members.contains_key(
                    id,
                )),
            },
    {
        match self.find(key) {
            None => None,
            Some(i) => match self.entries[i].room.get_user(id) {
                Some(u) => Some(u.copied()),
                None => None,
            },
        }
    }

    /// The sending end of the broadcast channel of the room `key`, if it is live.
    pub fn channel(&self, key: &String) -> (r: Option<&C>)
        requires
            self.wf(),
        ensures
            r.is_some() == self@.rooms.contains_key(key@),
            r matches Some(c) ==> *c == self.channel_of(key@),
    {
        match self.find(key) {
            None => None,
            Some(i) => {
                proof {
                    lemma_channel_at(self.entries@, i as int);
                }
                Some(&self.entries[i].tx)
            },
        }
    }

    /// The discovery answer: where the version is served, and the key of every live room once.
    pub fn discovery(&self) -> (r: Discovery)
        requires
            self.wf(),
        ensures
            r.version@ == VERSION_PATH@,
            r.available_rooms@.len() == self@.rooms.dom().len(),
            forall|k: Seq<char>|
                self@.rooms.contains_key(k) <==> exists|i: int|
                    0 <= i < r.available_rooms@.len() && #[trigger] r.available_rooms@[i]@ == k,
    {
        let mut rooms: Vec<String> = Vec::new();
        let mut i: usize = 0;
        while i < self.entries.len()
            invariant
                i <= self.entries@.len(),
                rooms@.len() == i,
                forall|j: int| 0 <= j < i ==> #[trigger] rooms@[j]@ == self.entries@[j].key@,
            decreases self.entries@.len() - i,
        {
            rooms.push(self.entries[i].key.clone());
            i += 1;
        }
        proof {
            self.lemma_dom();
            assert forall|k: Seq<char>| self@.rooms.contains_key(k) implies exists|i: int|
                0 <= i < rooms@.len() && #[trigger] rooms@[i]@ == k by {
                let i = self.index_of_live(k);
                assert(rooms@[i]@ == k);
            }
            assert forall|k: Seq<char>|
                (exists|i: int| 0 <= i < rooms@.len() && #[trigger] rooms@[i]@ == k) implies self@.rooms.contains_key(k) by {
                let i = choose|i: int| 0 <= i < rooms@.len() && #[trigger] rooms@[i]@ == k;
                lemma_rooms_of_lookup(self.entries@, i);
            }
        }
        Discovery { version: VERSION_PATH.to_owned(), available_rooms: rooms }
    }

    /// There are as many live rooms as entries.
    proof fn lemma_dom(&self)
        requires
            self.wf(),
        ensures
            self@.rooms.dom().len() == self.entries@.len(),
    {
        lemma_rooms_of_len(self.entries@);
    }
}

} // verus!

//! The presence registry of one room: who is connected, under which name.

use std::collections::HashMap;
use vstd::prelude::*;
use crate::types::{Identity, User};

verus! {

broadcast use vstd::std_specs::hash::group_hash_axioms;

/// The participants of one room, by identity.
pub struct Room {
    users: HashMap<Identity, User>,
}

impl View for Room {
    type V = Map<Identity, User>;

    closed spec fn view(&self) -> Map<Identity, User> {
        self.users@
    }
}

/// Every participant is stored under its own identity.
pub open spec fn keyed_by_id(m: Map<Identity, User>) -> bool {
    forall|k: Identity| #[trigger] m.contains_key(k) ==> m[k].id == k
}

impl Room {
    pub open spec fn wf(&self) -> bool {
        keyed_by_id(self@)
    }

    pub fn new() -> (r: Room)
        ensures
            r@ == Map::<Identity, User>::empty(),
            r.wf(),
    {
        Room { users: HashMap::new() }
    }

    pub fn is_empty(&self) -> (r: bool)
        ensures
            r == (self@.dom() =~= Set::<Identity>::empty()),
    {
        let r = self.users.is_empty();
        proof {
            if !r {
                let k = choose|k: Identity| self@.contains_key(k);
                assert(self@.dom().contains(k));
            }
        }
        r
    }

    pub fn has_user(&self, id: Identity) -> (r: bool)
        ensures
            r == self@.contains_key(id),
    {
        self.users.contains_key(&id)
    }

    pub fn get_user(&self, id: Identity) -> (r: Option<&User>)
        ensures
            match r {
                Some(u) => self@.contains_key(id) && *u == self@[id],
                None => !self@.contains_key(id),
            },
    {
        self.users.get(&id)
    }

    /// Stores `user` under its identity, replacing an earlier entry.
    pub fn modify_or_add_user(&mut self, user: User)
        requires
            old(self).wf(),
        ensures
            final(self)@ == old(self)@.insert(user.id, user),
            final(self).wf(),
    {
        self.add_user(user);
    }

    /// Sets the name of participant `id`, if present, and returns it as it now is.
    pub fn rename_user(&mut self, id: Identity, name: String) -> (r: Option<User>)
        requires
            old(self).wf(),
        ensures
            final(self).wf(),
            old(self)@.contains_key(id) ==> r == Some(User { id, name })
                && final(self)@ == old(self)@.insert(id, User { id, name }),
            !old(self)@.contains_key(id) ==> r.is_none() && final(self)@ == old(self)@,
    {
        if self.users.contains_key(&id) {
            let user = User { id, name };
            let copy = user.copied();
            self.users.insert(id, user);
            Some(copy)
        } else {
            None
        }
    }

    pub fn remove_user(&mut self, id: Identity) -> (r: Option<User>)
        requires
            old(self).wf(),
        ensures
            final(self)@ == old(self)@.remove(id),
            final(self).wf(),
            match r {
                Some(u) => old(self)@.contains_key(id) && u == old(self)@[id],
                None => !old(self)@.contains_key(id),
            },
    {
        self.users.remove(&id)
    }

    pub fn add_user(&mut self, user: User)
        requires
            old(self).wf(),
        ensures
            final(self)@ == old(self)@.insert(user.id, user),
            final(self).wf(),
    {
        let id = user.id;
        self.users.insert(id, user);
    }
}

} // verus!

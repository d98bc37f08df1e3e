use vstd::prelude::*;
use crate::model::State;
use crate::roles::{holder_external, holder_rank, issuer_external, issuer_rank, Holder, Issuer};

verus! {

/// The one role object a session id maps to.
pub enum Role {
    Issuer(Issuer),
    Holder(Holder),
}

/// The externally reported state of a role object.
pub open spec fn role_state(r: Role) -> State {
    match r {
        Role::Issuer(i) => issuer_external(i.spec_phase()),
        Role::Holder(h) => holder_external(h.spec_phase()),
    }
}

/// Position of a role object along its role's fixed order.
pub open spec fn role_rank(r: Role) -> nat {
    match r {
        Role::Issuer(i) => issuer_rank(i.spec_phase()),
        Role::Holder(h) => holder_rank(h.spec_phase()),
    }
}

pub open spec fn same_role(a: Role, b: Role) -> bool {
    (a is Issuer && b is Issuer) || (a is Holder && b is Holder)
}

impl Role {
    pub fn current_state(&self) -> (r: State)
        ensures
            r == role_state(*self),
    {
        match self {
            Role::Issuer(i) => i.current_state(),
            Role::Holder(h) => h.current_state(),
        }
    }
}

/// Role objects keyed by session id; each id holds at most one.
pub struct SessionStore {
    entries: Vec<(String, Role)>,
    contents: Ghost<Map<Seq<char>, Role>>,
}

impl View for SessionStore {
    type V = Map<Seq<char>, Role>;

    closed spec fn view(&self) -> Map<Seq<char>, Role> {
        self.contents@
    }
}

impl SessionStore {
    pub closed spec fn well_formed(&self) -> bool {
        &&& forall|i: int, j: int|
            0 <= i < j < self.entries@.len() ==> #[trigger] self.entries@[i].0@
                != #[trigger] self.entries@[j].0@
        &&& forall|i: int|
            0 <= i < self.entries@.len() ==> #[trigger] self.contents@.contains_key(
                self.entries@[i].0@,
            ) && self.contents@[self.entries@[i].0@] == self.entries@[i].1
        &&& forall|k: Seq<char>|
            #[trigger] self.contents@.contains_key(k) ==> exists|i: int|
                0 <= i < self.entries@.len() && #[trigger] self.entries@[i].0@ == k
    }

    pub fn new() -> (r: SessionStore)
        ensures
            r.well_formed(),
            r@ == Map::<Seq<char>, Role>::empty(),
    {
        SessionStore { entries: Vec::new(), contents: Ghost(Map::empty()) }
    }

    fn position(&self, id: &String) -> (r: Option<usize>)
        requires
            self.well_formed(),
        ensures
            r is None <==> !self@.contains_key(id@),
            r matches Some(i) ==> i < self.entries@.len() && self.entries@[i as int].0@ == id@,
    {
        let n = self.entries.len();
        for i in 0..n
            invariant
                n == self.entries@.len(),
                self.well_formed(),
                forall|j: int| 0 <= j < i ==> #[trigger] self.entries@[j].0@ != id@,
        {
            if self.entries[i].0 == *id {
                return Some(i);
            }
        }
        None
    }

    /// The role object stored under `id`, if any.
    pub fn get(&self, id: &String) -> (r: Option<&Role>)
        requires
            self.well_formed(),
        ensures
            r is None <==> !self@.contains_key(id@),
            r matches Some(role) ==> *role == self@[id@],
    {
        match self.position(id) {
            Some(i) => Some(&self.entries[i].1),
            None => None,
        }
    }

    /// Stores `role` under `id`, replacing what was there.
    pub fn set(&mut self, id: String, role: Role)
        requires
            old(self).well_formed(),
        ensures
            final(self).well_formed(),
            final(self)@ == old(self)@.insert(id@, role),
    {
        let ghost key = id@;
        let ghost before = self.entries@;
        let ghost updated = self.contents@.insert(key, role);
        let pos = self.position(&id);
        let ghost at: int = match pos {
            Some(i) => i as int,
            None => before.len() as int,
        };
        match pos {
            Some(i) => {
                let _ = self.entries.remove(i);
                self.entries.insert(i, (id, role));
                assert(self.entries@ =~= before.update(at, (id, role)));
            },
            None => {
                self.entries.push((id, role));
            },
        }
        self.contents = Ghost(updated);
        assert(self.entries@[at].0@ == key);
        assert forall|k: Seq<char>| #[trigger] self.contents@.contains_key(k) implies exists|i: int|
            0 <= i < self.entries@.len() && #[trigger] self.entries@[i].0@ == k by {
            if k != key {
                let j = choose|j: int| 0 <= j < before.len() && #[trigger] before[j].0@ == k;
                assert(self.entries@[j].0@ == k);
            } else {
                assert(self.entries@[at].0@ == k);
            }
        }
        assert forall|i: int| 0 <= i < self.entries@.len() implies #[trigger] self.contents@.contains_key(
            self.entries@[i].0@,
        ) && self.contents@[self.entries@[i].0@] == self.entries@[i].1 by {
            if i != at {
                assert(self.entries@[i] == before[i]);
                assert(before[i].0@ != key);
            }
        }
        assert forall|i: int, j: int|
            0 <= i < j < self.entries@.len() implies #[trigger] self.entries@[i].0@
                != #[trigger] self.entries@[j].0@ by {
            if i != at && j != at {
                assert(self.entries@[i] == before[i]);
                assert(self.entries@[j] == before[j]);
            } else if i == at {
                assert(self.entries@[j] == before[j]);
            } else {
                assert(self.entries@[i] == before[i]);
            }
        }
    }
}

} // verus!

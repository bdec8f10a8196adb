//! The shared table of active agents: the only data structure touched by
//! more than one thread. It maps each agent identity to the FIFO queue of
//! commands broadcast to it and not yet taken by its relay; the queue
//! models the agent's unbounded command channel. Callers guard a
//! `Registry` with one exclusive lock and keep each critical section to a
//! single insert, a single remove, one take, or one full broadcast.

use vstd::prelude::*;

verus! {

/// One registered agent: its identity and its pending commands, oldest
/// first.
pub struct AgentEntry {
    pub identity: String,
    pub pending: Vec<String>,
}

impl View for AgentEntry {
    type V = (Seq<char>, Seq<Seq<char>>);

    open spec fn view(&self) -> (Seq<char>, Seq<Seq<char>>) {
        (self.identity@, self.pending.deep_view())
    }
}

/// The abstract state of a registry: the registered identities in
/// insertion order, each with its queue of pending commands.
pub type RegistryModel = Seq<(Seq<char>, Seq<Seq<char>>)>;

/// Whether `id` is registered in `m`.
pub open spec fn contains_identity(m: RegistryModel, id: Seq<char>) -> bool {
    exists|i: int| 0 <= i < m.len() && m[i].0 == id
}

/// The position of `id` in `m`; meaningful only when `id` is registered.
pub open spec fn position_of_identity(m: RegistryModel, id: Seq<char>) -> int {
    choose|i: int| 0 <= i < m.len() && m[i].0 == id
}

/// The queue of commands pending for `id`; meaningful only when `id` is
/// registered.
pub open spec fn pending_for(m: RegistryModel, id: Seq<char>) -> Seq<Seq<char>> {
    m[position_of_identity(m, id)].1
}

/// No identity appears twice: each registered identity is backed by
/// exactly one live relay.
pub open spec fn distinct_identities(m: RegistryModel) -> bool {
    forall|i: int, j: int| 0 <= i < j < m.len() ==> m[i].0 != m[j].0
}

/// `m` after a broadcast of `c`: every entry keeps its place and gains
/// exactly one copy of `c` at the back of its queue.
pub open spec fn after_broadcast(m: RegistryModel, c: Seq<char>) -> RegistryModel {
    m.map_values(|p: (Seq<char>, Seq<Seq<char>>)| (p.0, p.1.push(c)))
}

/// `m` after the entry for `id` is removed, if it was present; the other
/// entries keep their relative order.
pub open spec fn without_identity(m: RegistryModel, id: Seq<char>) -> RegistryModel {
    if contains_identity(m, id) {
        m.remove(position_of_identity(m, id))
    } else {
        m
    }
}

/// When identities are distinct, `position_of_identity` is the one
/// position that holds `id`.
pub proof fn lemma_position_of_identity(m: RegistryModel, id: Seq<char>)
    requires
        distinct_identities(m),
        contains_identity(m, id),
    ensures
        0 <= position_of_identity(m, id) < m.len(),
        m[position_of_identity(m, id)].0 == id,
        forall|i: int| 0 <= i < m.len() && m[i].0 == id ==> i == position_of_identity(m, id),
{
    let p = position_of_identity(m, id);
    assert(0 <= p < m.len() && m[p].0 == id);
}

/// A broadcast while N agents are registered makes exactly N deliveries,
/// one per registered entry: no entry appears or disappears, every queue
/// grows by exactly one command, the command appended is an exact copy of
/// the one broadcast, and what was already queued is untouched.
pub proof fn lemma_broadcast_exact_deliveries(m: RegistryModel, c: Seq<char>)
    ensures
        after_broadcast(m, c).len() == m.len(),
        forall|i: int| 0 <= i < m.len() ==> after_broadcast(m, c)[i].0 == m[i].0,
        forall|i: int| 0 <= i < m.len() ==> after_broadcast(m, c)[i].1.len() == m[i].1.len() + 1,
        forall|i: int| 0 <= i < m.len() ==> after_broadcast(m, c)[i].1.last() == c,
        forall|i: int, k: int|
            0 <= i < m.len() && 0 <= k < m[i].1.len() ==> after_broadcast(m, c)[i].1[k]
                == m[i].1[k],
{
}

/// Within one agent, command delivery order equals broadcast issuance
/// order: successive broadcasts append to each queue in the order they
/// were issued, and commands are taken from the front of the queue.
pub proof fn lemma_commands_stay_in_issue_order(
    m: RegistryModel,
    first: Seq<char>,
    second: Seq<char>,
    i: int,
)
    requires
        0 <= i < m.len(),
    ensures
        after_broadcast(after_broadcast(m, first), second)[i].1 =~= m[i].1 + seq![first, second],
{
}

/// A broadcast registers nothing and removes nothing: an identity has an
/// entry after the broadcast exactly when it had one before.
pub proof fn lemma_broadcast_preserves_membership(m: RegistryModel, c: Seq<char>, id: Seq<char>)
    ensures
        contains_identity(after_broadcast(m, c), id) == contains_identity(m, id),
{
    let b = after_broadcast(m, c);
    assert(forall|i: int| 0 <= i < m.len() ==> b[i].0 == m[i].0);
    if contains_identity(m, id) {
        let i = choose|i: int| 0 <= i < m.len() && m[i].0 == id;
        assert(b[i].0 == id);
    }
    if contains_identity(b, id) {
        let i = choose|i: int| 0 <= i < b.len() && b[i].0 == id;
        assert(m[i].0 == id);
    }
}

/// Removing an identity from a well-formed registry state removes its one
/// entry: afterwards the identity is absent, every other identity keeps
/// its entry and its queue, and the state stays well formed.
pub proof fn lemma_without_identity_absent(m: RegistryModel, id: Seq<char>)
    requires
        distinct_identities(m),
    ensures
        !contains_identity(without_identity(m, id), id),
        distinct_identities(without_identity(m, id)),
        forall|other: Seq<char>|
            other != id ==> contains_identity(without_identity(m, id), other) == contains_identity(
                m,
                other,
            ),
{
    let w = without_identity(m, id);
    if contains_identity(m, id) {
        lemma_position_of_identity(m, id);
        let p = position_of_identity(m, id);
        assert(forall|j: int| 0 <= j < p ==> w[j] == m[j]);
        assert(forall|j: int| p <= j < w.len() ==> w[j] == m[j + 1]);
        assert(forall|j: int| 0 <= j < w.len() ==> w[j].0 != id);
        assert(forall|other: Seq<char>|
            other != id && contains_identity(m, other) ==> contains_identity(w, other)) by {
            assert forall|other: Seq<char>|
                other != id && contains_identity(m, other) implies contains_identity(
                w,
                other,
            ) by {
                let i = choose|i: int| 0 <= i < m.len() && m[i].0 == other;
                if i < p {
                    assert(w[i].0 == other);
                } else {
                    assert(w[i - 1].0 == other);
                }
            }
        }
        assert(forall|other: Seq<char>|
            contains_identity(w, other) ==> contains_identity(m, other)) by {
            assert forall|other: Seq<char>| contains_identity(w, other) implies contains_identity(
                m,
                other,
            ) by {
                let i = choose|i: int| 0 <= i < w.len() && w[i].0 == other;
                if i < p {
                    assert(m[i].0 == other);
                } else {
                    assert(m[i + 1].0 == other);
                }
            }
        }
    }
}

/// The shared mapping from agent identity to that agent's command queue.
pub struct Registry {
    entries: Vec<AgentEntry>,
}

impl View for Registry {
    type V = RegistryModel;

    closed spec fn view(&self) -> RegistryModel {
        Seq::new(
            self.entries@.len(),
            |i: int| (self.entries@[i].identity@, self.entries@[i].pending.deep_view()),
        )
    }
}

impl Registry {
    /// A registry is well formed when no identity is registered twice.
    pub open spec fn wf(self) -> bool {
        distinct_identities(self@)
    }

    /// An empty registry: no agents, nothing pending.
    pub fn new() -> (r: Registry)
        ensures
            r@ =~= Seq::<(Seq<char>, Seq<Seq<char>>)>::empty(),
            r.wf(),
    {
        Registry { entries: Vec::new() }
    }

    /// The number of registered agents.
    pub fn len(&self) -> (n: usize)
        ensures
            n == self@.len(),
    {
        self.entries.len()
    }

    /// The position of `identity` among the entries, if it is registered.
    fn position_of(&self, identity: &String) -> (r: Option<usize>)
        requires
            self.wf(),
        ensures
            r matches Some(i) ==> i < self@.len() && self@[i as int].0 == identity@
                && i == position_of_identity(self@, identity@),
            r is None ==> !contains_identity(self@, identity@),
    {
        let mut i: usize = 0;
        while i < self.entries.len()
            invariant
                i <= self@.len(),
                self.wf(),
                forall|j: int| 0 <= j < i ==> self@[j].0 != identity@,
            decreases self@.len() - i,
        {
            if self.entries[i].identity == *identity {
                proof {
                    assert(contains_identity(self@, identity@)) by {
                        assert(self@[i as int].0 == identity@);
                    }
                    lemma_position_of_identity(self@, identity@);
                }
                return Some(i);
            }
            i = i + 1;
        }
        None
    }

    /// Register `identity` with an empty command queue, as the listener
    /// does when it accepts a connection. A fresh connection always gets a
    /// fresh entry: if the identity was somehow still present, its old
    /// entry (and queue) is replaced in place, matching a map insert.
    pub fn register(&mut self, identity: String) -> (was_present: bool)
        requires
            old(self).wf(),
        ensures
            final(self).wf(),
            was_present == contains_identity(old(self)@, identity@),
            contains_identity(final(self)@, identity@),
            pending_for(final(self)@, identity@) =~~= Seq::<Seq<char>>::empty(),
            !was_present ==> final(self)@ =~~= old(self)@.push(
                (identity@, Seq::<Seq<char>>::empty()),
            ),
            was_present ==> final(self)@ =~~= old(self)@.update(
                position_of_identity(old(self)@, identity@),
                (identity@, Seq::<Seq<char>>::empty()),
            ),
    {
        let ghost m0 = self@;
        let ghost id = identity@;
        let r = self.position_of(&identity);
        let entry = AgentEntry { identity, pending: Vec::new() };
        match r {
            Some(i) => {
                self.entries.set(i, entry);
                proof {
                    assert(self@ =~~= m0.update(i as int, (id, Seq::<Seq<char>>::empty())));
                    assert(contains_identity(self@, id)) by {
                        assert(self@[i as int].0 == id);
                    }
                    lemma_position_of_identity(self@, id);
                }
                true
            },
            None => {
                self.entries.push(entry);
                proof {
                    assert(self@ =~~= m0.push((id, Seq::<Seq<char>>::empty())));
                    assert(self.wf()) by {
                        assert(forall|j: int| 0 <= j < m0.len() ==> self@[j] == m0[j]);
                    }
                    assert(contains_identity(self@, id)) by {
                        assert(self@[m0.len() as int].0 == id);
                    }
                    lemma_position_of_identity(self@, id);
                }
                false
            },
        }
    }

    /// Remove the entry for `identity`, as the dispatcher does after it
    /// consumes a disconnect notice. Removal is idempotent: a second call
    /// for the same identity finds nothing and changes nothing. Returns
    /// whether the identity was present.
    pub fn remove(&mut self, identity: &String) -> (was_present: bool)
        requires
            old(self).wf(),
        ensures
            final(self).wf(),
            was_present == contains_identity(old(self)@, identity@),
            !contains_identity(final(self)@, identity@),
            final(self)@ =~= without_identity(old(self)@, identity@),
    {
        let ghost m0 = self@;
        let ghost id = identity@;
        match self.position_of(identity) {
            Some(i) => {
                self.entries.remove(i);
                proof {
                    lemma_position_of_identity(m0, id);
                    assert(self@ =~= m0.remove(i as int));
                    assert(!contains_identity(self@, id)) by {
                        assert(forall|j: int| 0 <= j < self@.len() ==> self@[j].0
                            != id) by {
                            assert(forall|j: int| 0 <= j < i ==> self@[j] == m0[j]);
                            assert(forall|j: int|
                                i <= j < self@.len() ==> self@[j] == m0[j + 1]);
                        }
                    }
                }
                true
            },
            None => false,
        }
    }

    /// Broadcast `command`: append exactly one copy of it, verbatim, to
    /// every registered agent's queue. Delivery is fire-and-forget: no
    /// acknowledgement, no retry, and a stalled agent's queue simply
    /// grows.
    pub fn broadcast(&mut self, command: &String)
        requires
            old(self).wf(),
        ensures
            final(self).wf(),
            final(self)@ =~~= after_broadcast(old(self)@, command@),
    {
        let ghost m0 = self@;
        let mut i: usize = 0;
        while i < self.entries.len()
            invariant
                i <= self@.len(),
                self@.len() == m0.len(),
                forall|j: int| 0 <= j < i ==> self@[j].0 == m0[j].0
                    && self@[j].1 =~~= m0[j].1.push(command@),
                forall|j: int| i <= j < m0.len() ==> self@[j] == m0[j],
            decreases m0.len() - i,
        {
            let ghost i0 = i as int;
            let entry = &mut self.entries[i];
            entry.pending.push(command.clone());
            proof {
                assert(self@[i0].1 =~~= m0[i0].1.push(command@));
            }
            i = i + 1;
        }
        proof {
            assert(self@ =~~= after_broadcast(m0, command@));
            assert(self.wf()) by {
                assert(forall|j: int| 0 <= j < m0.len() ==> self@[j].0 == m0[j].0);
            }
        }
    }

    /// The relay's non-blocking receive: take the oldest command pending
    /// for `identity`, if any. Returns `None` when the identity is not
    /// registered or its queue is empty.
    pub fn take_command(&mut self, identity: &String) -> (r: Option<String>)
        requires
            old(self).wf(),
        ensures
            final(self).wf(),
            r is Some <==> contains_identity(old(self)@, identity@) && pending_for(
                old(self)@,
                identity@,
            ).len() > 0,
            r matches Some(c) ==> c@ == pending_for(old(self)@, identity@)[0]
                && final(self)@ =~~= old(self)@.update(
                position_of_identity(old(self)@, identity@),
                (identity@, pending_for(old(self)@, identity@).drop_first()),
            ),
            r is None ==> final(self)@ == old(self)@,
    {
        let ghost m0 = self@;
        let ghost id = identity@;
        match self.position_of(identity) {
            Some(i) => {
                let entry = &mut self.entries[i];
                if entry.pending.len() > 0 {
                    let c = entry.pending.remove(0);
                    proof {
                        assert(pending_for(m0, id) == m0[i as int].1);
                        assert(c@ == pending_for(m0, id)[0]);
                        assert(self@ =~~= m0.update(
                            i as int,
                            (id, pending_for(m0, id).drop_first()),
                        ));
                        assert(self.wf()) by {
                            assert(forall|j: int| 0 <= j < m0.len() ==> self@[j].0 == m0[j].0);
                        }
                    }
                    Some(c)
                } else {
                    proof {
                        assert(self@ =~~= m0);
                        assert(self@ == m0);
                    }
                    None
                }
            },
            None => None,
        }
    }

    /// How many commands are pending for `identity`: the length of its
    /// queue, or zero when it is not registered.
    pub fn pending_count(&self, identity: &String) -> (n: usize)
        requires
            self.wf(),
        ensures
            contains_identity(self@, identity@) ==> n == pending_for(self@, identity@).len(),
            !contains_identity(self@, identity@) ==> n == 0,
    {
        match self.position_of(identity) {
            Some(i) => self.entries[i].pending.len(),
            None => 0,
        }
    }

    /// Whether `identity` is currently registered.
    pub fn contains(&self, identity: &String) -> (b: bool)
        requires
            self.wf(),
        ensures
            b == contains_identity(self@, identity@),
    {
        self.position_of(identity).is_some()
    }
}

} // verus!

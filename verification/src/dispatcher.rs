//! The dispatcher's control step: the decisions of the one loop that
//! coordinates broadcast and aggregation. Each iteration the loop polls
//! its channels (outside the library), then calls in here with the lock
//! held: at most one drained disconnect notice prunes its entry, and a
//! pending non-empty operator command is broadcast to every remaining
//! agent. Response lines are drained and printed afterwards, without the
//! lock, capped per iteration at the registry's current size.

use crate::message::DisconnectNotice;
use crate::registry::{
    after_broadcast, contains_identity, distinct_identities, lemma_broadcast_preserves_membership,
    lemma_without_identity_absent, without_identity, Registry, RegistryModel,
};
use vstd::prelude::*;

verus! {

/// What one dispatcher iteration does to the registry state: the one
/// drained disconnect notice (if any) removes its entry, then a pending
/// non-empty command is appended to every remaining queue. An absent or
/// empty input line broadcasts nothing.
pub open spec fn step_model(
    m: RegistryModel,
    input: Option<Seq<char>>,
    notice: Option<Seq<char>>,
) -> RegistryModel {
    let pruned = match notice {
        Some(id) => without_identity(m, id),
        None => m,
    };
    match input {
        Some(c) => if c.len() > 0 {
            after_broadcast(pruned, c)
        } else {
            pruned
        },
        None => pruned,
    }
}

/// One iteration of the dispatcher's control work, with exclusive access
/// to the registry: consume at most one disconnect notice, removing the
/// matching entry — removal is authoritative cleanup, the single trigger
/// by which an agent leaves — then send a copy of the pending command, if
/// one arrived and is non-empty, to every remaining agent's queue.
pub fn dispatcher_step(
    registry: &mut Registry,
    input: Option<String>,
    notice: Option<DisconnectNotice>,
)
    requires
        old(registry).wf(),
    ensures
        final(registry).wf(),
        final(registry)@ =~~= step_model(
            old(registry)@,
            match input {
                Some(c) => Some(c@),
                None => None,
            },
            match notice {
                Some(n) => Some(n.identity@),
                None => None,
            },
        ),
        notice matches Some(n) ==> !contains_identity(final(registry)@, n.identity@),
{
    let ghost m0 = registry@;
    let ghost pruned = match &notice {
        Some(n) => without_identity(m0, n.identity@),
        None => m0,
    };
    if let Some(n) = &notice {
        registry.remove(&n.identity);
    }
    proof {
        assert(registry@ =~~= pruned);
    }
    let ghost m1 = registry@;
    if let Some(c) = &input {
        if !c.as_str().is_empty() {
            registry.broadcast(c);
            proof {
                if let Some(n) = &notice {
                    lemma_broadcast_preserves_membership(m1, c@, n.identity@);
                }
            }
        }
    }
}

/// After a disconnect notice for an identity is consumed, that identity
/// is absent from the registry by the end of the dispatcher iteration —
/// whatever command that same iteration broadcasts — and no later
/// broadcast delivers anything to it either: without an entry it has no
/// queue, so no subsequent command can reach it.
pub proof fn lemma_disconnected_agent_receives_nothing(
    m: RegistryModel,
    id: Seq<char>,
    input: Option<Seq<char>>,
    later: Seq<char>,
)
    requires
        distinct_identities(m),
    ensures
        !contains_identity(step_model(m, input, Some(id)), id),
        !contains_identity(after_broadcast(step_model(m, input, Some(id)), later), id),
{
    lemma_without_identity_absent(m, id);
    let pruned = without_identity(m, id);
    let stepped = step_model(m, input, Some(id));
    match input {
        Some(c) => {
            if c.len() > 0 {
                lemma_broadcast_preserves_membership(pruned, c, id);
            }
        },
        None => {
        },
    }
    lemma_broadcast_preserves_membership(stepped, later, id);
}

} // verus!

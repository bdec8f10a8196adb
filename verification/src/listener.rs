//! The listener's one decision: what accepting a connection does to the
//! shared state. The accept loop itself (socket, thread spawn) lives
//! outside the library; for each connection it derives the identity from
//! the remote endpoint and calls in here before starting the relay.

use crate::registry::{contains_identity, pending_for, position_of_identity, Registry};
use crate::relay::Relay;
use vstd::prelude::*;

verus! {

/// Turn an accepted connection into a registered, relayed agent: register
/// its identity with a fresh, empty command queue and hand back the relay
/// state bound to that same identity, ready to run.
pub fn admit_connection(registry: &mut Registry, identity: String) -> (r: Relay)
    requires
        old(registry).wf(),
    ensures
        final(registry).wf(),
        contains_identity(final(registry)@, identity@),
        pending_for(final(registry)@, identity@) =~= Seq::<Seq<char>>::empty(),
        !contains_identity(old(registry)@, identity@) ==> final(registry)@ =~~= old(
            registry,
        )@.push((identity@, Seq::<Seq<char>>::empty())),
        contains_identity(old(registry)@, identity@) ==> final(registry)@ =~~= old(
            registry,
        )@.update(
            position_of_identity(old(registry)@, identity@),
            (identity@, Seq::<Seq<char>>::empty()),
        ),
        r.identity@ == identity@,
        !r.finished,
{
    let relay = Relay::new(identity.clone());
    registry.register(identity);
    relay
}

} // verus!

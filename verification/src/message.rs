//! The values that flow between the components: an agent's response and
//! the notice a relay emits when its connection terminates.

use vstd::prelude::*;

verus! {

/// A payload read from an agent's socket, decoded as text and tagged with
/// the identity of the connection it came from. Produced by a relay,
/// consumed once by the dispatcher (printed) and discarded.
pub struct Response {
    pub source: String,
    pub text: String,
}

/// The signal a relay emits exactly once, when it observes that its
/// connection has terminated (clean close or I/O failure). The dispatcher
/// consumes it to remove the corresponding registry entry.
pub struct DisconnectNotice {
    pub identity: String,
}

/// The line the dispatcher prints for a response, attributing the payload
/// to its originating agent.
pub fn render_response(r: &Response) -> (line: String)
    ensures
        line@ == "[Client "@ + r.source@ + "] "@ + r.text@,
{
    let mut line = String::from_str("[Client ");
    line.append(r.source.as_str());
    line.append("] ");
    line.append(r.text.as_str());
    line
}

} // verus!

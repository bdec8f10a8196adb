//! The per-connection relay: the only component that touches a given
//! socket. The socket I/O itself lives outside the library; what stands
//! here is every decision the relay makes — how a read result is
//! classified, what becomes of the bytes that arrive, and when the one
//! disconnect notice for this connection is emitted.

use crate::message::{DisconnectNotice, Response};
use vstd::prelude::*;
use vstd::utf8::{decode_utf8, valid_utf8};

verus! {

/// The error half of a socket read result, reduced to what the relay's
/// decision depends on: whether the error only says that no data arrived
/// within the bounded wait.
#[derive(Clone, Copy, PartialEq, Eq, Structural)]
pub enum ReadError {
    /// The bounded wait elapsed with no data.
    TimedOut,
    /// The read would have had to block.
    WouldBlock,
    /// Any other I/O failure.
    Other,
}

/// How the relay classifies one socket read.
#[derive(Clone, Copy, PartialEq, Eq, Structural)]
pub enum ReadClass {
    /// Bytes arrived: decode and report them.
    Payload,
    /// A zero-byte read: the peer closed the connection cleanly.
    CleanClose,
    /// Timeout or would-block: not an error, keep looping.
    Transient,
    /// Any other failure: connection-fatal.
    Fatal,
}

/// Classify a socket read result. A zero-byte read is always a clean
/// disconnect — never a payload, never an error to retry; a timeout or
/// would-block condition is always transient; every other failure is
/// fatal for this one connection.
pub fn classify_read(outcome: Result<usize, ReadError>) -> (c: ReadClass)
    ensures
        c is CleanClose <==> (outcome matches Ok(n) && n == 0),
        c is Payload <==> (outcome matches Ok(n) && n > 0),
        c is Transient <==> (outcome matches Err(e) && e !is Other),
        c is Fatal <==> (outcome matches Err(e) && e is Other),
{
    match outcome {
        Ok(n) => if n == 0 {
            ReadClass::CleanClose
        } else {
            ReadClass::Payload
        },
        Err(ReadError::TimedOut) => ReadClass::Transient,
        Err(ReadError::WouldBlock) => ReadClass::Transient,
        Err(ReadError::Other) => ReadClass::Fatal,
    }
}

/// What the relay asks its caller to do after one step of its loop.
pub enum RelayAction {
    /// Push this response onto the shared response channel and continue.
    Deliver(Response),
    /// Nothing to report: run the next iteration.
    Continue,
    /// Push this one notice onto the shared disconnect channel, then
    /// exit: the connection is over.
    Disconnect(DisconnectNotice),
}

/// Relies on `String::from_utf8`: it returns `Ok` exactly when the bytes
/// are valid UTF-8, and the characters of the returned string are then
/// their decoding.
#[verifier::external_body]
fn decode_text(bytes: Vec<u8>) -> (r: Option<String>)
    ensures
        r is Some <==> valid_utf8(bytes@),
        r matches Some(s) ==> s@ == decode_utf8(bytes@),
{
    String::from_utf8(bytes).ok()
}

/// The state a relay keeps between steps: the identity of its connection,
/// fixed for the connection's whole life, and whether it has already
/// terminated. A finished relay takes no further steps, so the disconnect
/// notice it emits on the way out is emitted exactly once.
pub struct Relay {
    pub identity: String,
    pub finished: bool,
}

impl Relay {
    /// A relay for a freshly accepted connection.
    pub fn new(identity: String) -> (r: Relay)
        ensures
            r.identity == identity,
            !r.finished,
    {
        Relay { identity, finished: false }
    }

    /// Terminate: mark this relay finished and hand back the one
    /// disconnect notice for its identity.
    fn emit_disconnect(&mut self) -> (a: RelayAction)
        ensures
            final(self).identity == old(self).identity,
            final(self).finished,
            a matches RelayAction::Disconnect(n) && n.identity@ == old(self).identity@,
    {
        self.finished = true;
        RelayAction::Disconnect(DisconnectNotice { identity: self.identity.clone() })
    }

    /// One read step of the relay loop, applied to the outcome of a
    /// bounded-wait socket read: `Ok` carries the bytes that arrived
    /// (empty on a zero-byte read). A non-empty payload that decodes as
    /// text is delivered tagged with this relay's own identity; one that
    /// does not decode is connection-fatal; a zero-byte read is a clean
    /// disconnect; a timeout or would-block outcome is no error at all.
    pub fn on_read(&mut self, outcome: Result<Vec<u8>, ReadError>) -> (a: RelayAction)
        requires
            !old(self).finished,
        ensures
            final(self).identity == old(self).identity,
            final(self).finished == (a is Disconnect),
            outcome matches Ok(data) && data@.len() == 0 ==> a is Disconnect,
            outcome matches Ok(data) ==> (data@.len() > 0 && valid_utf8(data@) ==> (a
                matches RelayAction::Deliver(r) && r.source@ == old(self).identity@ && r.text@
                == decode_utf8(data@))),
            outcome matches Ok(data) && data@.len() > 0 && !valid_utf8(data@) ==> a is Disconnect,
            outcome matches Err(e) && e !is Other ==> a is Continue,
            outcome matches Err(e) && e is Other ==> a is Disconnect,
            a matches RelayAction::Disconnect(n) ==> n.identity@ == old(self).identity@,
    {
        match outcome {
            Ok(data) => {
                let len = data.len();
                match classify_read(Ok(len)) {
                    ReadClass::CleanClose => self.emit_disconnect(),
                    _ => {
                        match decode_text(data) {
                            Some(text) => RelayAction::Deliver(
                                Response { source: self.identity.clone(), text },
                            ),
                            None => self.emit_disconnect(),
                        }
                    },
                }
            },
            Err(e) => {
                match classify_read(Err(e)) {
                    ReadClass::Transient => RelayAction::Continue,
                    _ => self.emit_disconnect(),
                }
            },
        }
    }

    /// One write step of the relay loop, applied after a command taken
    /// from this agent's queue was written to the socket: a failed write
    /// is connection-fatal, a successful one lets the loop continue.
    pub fn on_write_result(&mut self, ok: bool) -> (a: RelayAction)
        requires
            !old(self).finished,
        ensures
            final(self).identity == old(self).identity,
            final(self).finished == (a is Disconnect),
            ok <==> a is Continue,
            a matches RelayAction::Disconnect(n) ==> n.identity@ == old(self).identity@,
    {
        if ok {
            RelayAction::Continue
        } else {
            self.emit_disconnect()
        }
    }
}

/// Responses are never cross-attributed: each response a relay delivers
/// carries that relay's own identity, so responses delivered by two
/// relays over different connections carry different tags, however their
/// arrivals interleave.
pub proof fn lemma_no_cross_attribution(a: Relay, b: Relay, ra: Response, rb: Response)
    requires
        a.identity@ != b.identity@,
        ra.source@ == a.identity@,
        rb.source@ == b.identity@,
    ensures
        ra.source@ != rb.source@,
{
}

} // verus!

use vstd::prelude::*;

verus! {

/// Diagnostic record for a response that ended before the frame an endpoint
/// contract promised: the missing field's name and its 0-based position.
#[derive(Debug)]
pub struct MissingFrame {
    pub name: String,
    pub order: u8,
}

impl MissingFrame {
    pub fn new(name: &str, order: u8) -> (r: MissingFrame)
        ensures
            r.name@ == name@,
            r.order == order,
    {
        MissingFrame { name: name.to_owned(), order }
    }
}

/// The error taxonomy of this library.
///
/// `Connection` covers an operation attempted before `connect` as well as
/// socket-level failures reported by the transport. `Frame` signals a response
/// shorter than the endpoint contract (an agent/protocol version mismatch).
/// `Agent` carries, verbatim, a failure message the remote peer reported.
/// `Protocol` marks a response header outside {"Ok", "Err"}: an invariant
/// violation that callers must treat as fatal, never coerce. `Parse` marks a
/// well-formed frame with malformed content (for instance a non-numeric exit
/// code). `Os` is a local capability-binding failure. `NoProvider` is returned
/// when no package-provider candidate is active on the host.
#[derive(Debug)]
pub enum Error {
    Connection(String),
    Frame(MissingFrame),
    Agent(String),
    Protocol(String),
    Parse(String),
    Os(String),
    NoProvider,
}

} // verus!

//! Events exchanged between the streamer and the watcher, and the plain
//! transport that carries them.
use vstd::prelude::*;

verus! {

/// Control events of a streaming session.
#[derive(Debug, Clone, Copy, PartialEq, Eq, Structural)]
pub enum StreamingEvent {
    /// The watcher leaves the session.
    ClientQuit,
    /// The streamer ends the stream.
    ServerEndsStream,
    /// Something went wrong on the other side.
    GenericError,
}

/// A receiving half and a sending half of one connection.
pub struct Transport<R, W> {
    pub recv: R,
    pub send: W,
}

impl<R, W> Transport<R, W> {
    /// Pairs a receiving half with a sending half.
    pub fn new(recv: R, send: W) -> (t: Self)
        ensures
            t.recv == recv,
            t.send == send,
    {
        Transport { recv, send }
    }
}

} // verus!

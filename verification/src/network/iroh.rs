//! The two streams of a peer-to-peer session and how each side tells them
//! apart.
//!
//! The streamer opens one stream for frames and one for events and writes a
//! one-byte tag first on each, because nothing guarantees that the watcher
//! accepts them in the order they were opened.
use vstd::prelude::*;

verus! {

/// The purpose of a stream within a peer-to-peer session.
#[derive(Debug, Clone, Copy, PartialEq, Eq, Structural)]
pub enum StreamRole {
    Frames,
    Events,
}

/// Which end of a session a transport belongs to.
#[derive(Debug, Clone, Copy, PartialEq, Eq, Structural)]
pub enum Side {
    Streamer,
    Watcher,
}

pub const FRAMES_TAG: u8 = 0;

pub const EVENTS_TAG: u8 = 1;

pub open spec fn spec_tag_of(role: StreamRole) -> u8 {
    match role {
        StreamRole::Frames => FRAMES_TAG,
        StreamRole::Events => EVENTS_TAG,
    }
}

pub open spec fn spec_classify_tag(tag: u8) -> Option<StreamRole> {
    if tag == FRAMES_TAG {
        Some(StreamRole::Frames)
    } else if tag == EVENTS_TAG {
        Some(StreamRole::Events)
    } else {
        None
    }
}

/// The tag byte the streamer writes first on a stream of this role.
pub fn tag_of(role: StreamRole) -> (tag: u8)
    ensures
        tag == spec_tag_of(role),
{
    match role {
        StreamRole::Frames => FRAMES_TAG,
        StreamRole::Events => EVENTS_TAG,
    }
}

/// The role of an accepted stream by its tag byte; `None` for an unknown
/// tag, which the watcher ignores.
pub fn classify_tag(tag: u8) -> (role: Option<StreamRole>)
    ensures
        role == spec_classify_tag(tag),
{
    if tag == FRAMES_TAG {
        Some(StreamRole::Frames)
    } else if tag == EVENTS_TAG {
        Some(StreamRole::Events)
    } else {
        None
    }
}

/// The watcher recognises every stream the streamer opens by the tag the
/// streamer wrote on it, and the two roles have different tags.
pub proof fn law_tag_roundtrip(role: StreamRole, other: StreamRole)
    ensures
        spec_classify_tag(spec_tag_of(role)) == Some(role),
        role != other ==> spec_tag_of(role) != spec_tag_of(other),
{
}

/// Channel capacity and receive-buffer capacity of the transport that
/// carries a stream: frames need large buffers; events small ones. The
/// streamer keeps fewer frames queued than the watcher.
pub open spec fn spec_transport_capacities(side: Side, role: StreamRole) -> (usize, usize) {
    match (side, role) {
        (Side::Streamer, StreamRole::Frames) => (8, 65536),
        (Side::Watcher, StreamRole::Frames) => (32, 65536),
        (_, StreamRole::Events) => (32, 1024),
    }
}

/// The channel and receive-buffer capacities for a transport of `role` on
/// `side`.
pub fn transport_capacities(side: Side, role: StreamRole) -> (c: (usize, usize))
    ensures
        c == spec_transport_capacities(side, role),
{
    match (side, role) {
        (Side::Streamer, StreamRole::Frames) => (8, 65536),
        (Side::Watcher, StreamRole::Frames) => (32, 65536),
        (_, StreamRole::Events) => (32, 1024),
    }
}

} // verus!

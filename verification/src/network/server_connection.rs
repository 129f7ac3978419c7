//! The streamer's side of a connection.
use vstd::prelude::*;

use crate::network::address::SocketAddress;
use crate::network::payload::{bytes_content, frame_payload};
use crate::network::ConnectionBuildInfo;

verus! {

/// How the streamer reaches the watcher: directly, at the watcher's events
/// socket with the watcher's stream port, or over a peer-to-peer
/// connection with its frames transport.
pub enum ServerConnectionMode<F, C> {
    Direct { client_address: SocketAddress, client_streaming_port: u16 },
    Iroh { frames_stream: Option<F>, iroh_connection: C },
}

/// The streamer's connection: its mode, the events transport once a watcher
/// is accepted, and the sender of serialized events on it.
pub struct ServerConnection<F, C, T, S> {
    pub connection_mode: ServerConnectionMode<F, C>,
    pub events_transport: Option<T>,
    pub events_sender: Option<S>,
}

impl<F, C> ServerConnectionMode<F, C> {
    /// The streamer's mode for direct connection information: the watcher's
    /// events socket and stream port. Peer-to-peer information is not
    /// turned into a mode this way.
    pub fn from_build_info<E, K>(info: ConnectionBuildInfo<E, K>) -> (m: Self)
        requires
            info is Direct,
        ensures
            m matches ServerConnectionMode::Direct { client_address, client_streaming_port }
                && info matches ConnectionBuildInfo::Direct {
                watcher_stream_port,
                tcp_socket_address,
            } && client_address == tcp_socket_address && client_streaming_port
                == watcher_stream_port,
    {
        match info {
            ConnectionBuildInfo::Direct { watcher_stream_port, tcp_socket_address } => {
                ServerConnectionMode::Direct {
                    client_address: tcp_socket_address,
                    client_streaming_port: watcher_stream_port,
                }
            },
            ConnectionBuildInfo::Iroh { .. } => {
                vstd::pervasive::unreached()
            },
        }
    }
}

impl<F, C, T, S> ServerConnection<F, C, T, S> {
    /// A connection for direct connection information, with no watcher
    /// accepted yet.
    pub fn from_build_info<E, K>(info: ConnectionBuildInfo<E, K>) -> (c: Self)
        requires
            info is Direct,
        ensures
            c.connection_mode matches ServerConnectionMode::Direct {
                client_address,
                client_streaming_port,
            } && info matches ConnectionBuildInfo::Direct {
                watcher_stream_port,
                tcp_socket_address,
            } && client_address == tcp_socket_address && client_streaming_port
                == watcher_stream_port,
            c.events_transport is None,
            c.events_sender is None,
    {
        ServerConnection {
            connection_mode: ServerConnectionMode::from_build_info(info),
            events_transport: None,
            events_sender: None,
        }
    }

    /// The payload the streamer sends for one encoded sample: a copy of the
    /// sample's bytes.
    pub fn frame_bytes(sample: &[u8]) -> (b: bytes::Bytes)
        requires
            sample.len() + 4 <= isize::MAX,
        ensures
            bytes_content(b) == sample@,
    {
        frame_payload(sample)
    }
}

} // verus!

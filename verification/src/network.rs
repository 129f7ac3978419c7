//! Networking: wire framing, connection set-up and the decisions of the
//! connections on both sides.
pub mod address;
pub mod client_connection;
pub mod frame;
pub mod iroh;
pub mod payload;
pub mod server_connection;
pub mod streaming_event;
pub mod transport;

use vstd::prelude::*;

use crate::network::address::{
    law_port_text_roundtrip, parse_port, spec_parse_u16, PortParseError, SocketAddress,
};
use crate::text::{push_decimal, spec_decimal};

verus! {

/// Why an address given by the user could not be read.
#[derive(Debug, Clone, Copy, PartialEq, Eq, Structural)]
pub enum ParseError {
    InvalidIp,
    InvalidPort(PortParseError),
}

/// Why the information for a connection could not be built.
#[derive(Debug)]
pub enum ConnectionBuildError {
    /// The port text is no valid port number.
    InvalidPort(PortParseError),
    /// The address with the port is no valid socket address.
    InvalidIp,
    /// The invite link could not be read.
    InvalidTicket(String),
}

/// What is needed to open a connection: a direct address, or a peer-to-peer
/// endpoint with the ticket of the other side.
pub enum ConnectionBuildInfo<E, T> {
    Direct { watcher_stream_port: u16, tcp_socket_address: SocketAddress },
    Iroh { endpoint: E, ticket: T },
}

/// The text that the set-up parses as a socket address: the address the
/// user gave, a colon, and the port in decimal.
pub open spec fn spec_address_text(address: Seq<char>, port: u16) -> Seq<char> {
    address + seq![':'] + spec_decimal(port as nat)
}

/// The address text holds the address as the user gave it, then a colon,
/// then a port text that reads back as the port, for every address and
/// every port.
pub proof fn law_address_text_splits(address: Seq<char>, port: u16)
    ensures
        spec_address_text(address, port).len() > address.len(),
        spec_address_text(address, port).take(address.len() as int) == address,
        spec_address_text(address, port)[address.len() as int] == ':',
        spec_parse_u16(spec_address_text(address, port).skip(address.len() as int + 1))
            == Ok::<u16, PortParseError>(port),
{
    let t = spec_address_text(address, port);
    law_port_text_roundtrip(port);
    assert(t.take(address.len() as int) =~= address);
    assert(t.skip(address.len() as int + 1) =~= spec_decimal(port as nat));
}

/// The connection information for a port and the parsed socket address:
/// the events socket is at the parsed IP with the given port.
pub open spec fn spec_direct_info<E, T>(port: u16, parsed: Option<SocketAddress>) -> Result<
    ConnectionBuildInfo<E, T>,
    ConnectionBuildError,
> {
    match parsed {
        None => Err(ConnectionBuildError::InvalidIp),
        Some(a) => Ok(
            ConnectionBuildInfo::Direct {
                watcher_stream_port: port,
                tcp_socket_address: SocketAddress { ip: a.ip, port },
            },
        ),
    }
}

impl<E, T> ConnectionBuildInfo<E, T> {
    /// Builds direct connection information from a port that was read and
    /// the outcome of parsing the address text.
    pub fn direct_info_from_parsed(port: u16, parsed: Option<SocketAddress>) -> (r: Result<
        ConnectionBuildInfo<E, T>,
        ConnectionBuildError,
    >)
        ensures
            r == spec_direct_info::<E, T>(port, parsed),
    {
        match parsed {
            None => Err(ConnectionBuildError::InvalidIp),
            Some(a) => Ok(
                ConnectionBuildInfo::Direct {
                    watcher_stream_port: port,
                    tcp_socket_address: SocketAddress::new(a.ip(), port),
                },
            ),
        }
    }

    /// The text `"{address}:{port}"` that is parsed as the watcher's
    /// socket address.
    pub fn address_text(watcher_address: &str, port: u16) -> (text: String)
        ensures
            text@ == spec_address_text(watcher_address@, port),
            text@.len() > watcher_address@.len(),
            text@.take(watcher_address@.len() as int) == watcher_address@,
            text@[watcher_address@.len() as int] == ':',
            spec_parse_u16(text@.skip(watcher_address@.len() as int + 1)) == Ok::<u16, PortParseError>(
                port,
            ),
    {
        proof {
            law_address_text_splits(watcher_address@, port);
        }
        let mut text = watcher_address.to_owned();
        proof {
            reveal_strlit(":");
        }
        text.append(":");
        push_decimal(&mut text, port as u32);
        text
    }

    /// Reads the watcher's stream port and address as the user typed them.
    /// The port must be a valid `u16`; the address followed by `:` and the
    /// port must parse as a socket address, which `parse_socket_address`
    /// does. The events socket is at the parsed IP, with the stream port.
    pub fn from_direct_info<F: Fn(&str) -> Option<SocketAddress>>(
        watcher_stream_port: String,
        watcher_address: String,
        parse_socket_address: F,
    ) -> (r: Result<ConnectionBuildInfo<E, T>, ConnectionBuildError>)
        requires
            forall|s: &str| #[trigger] parse_socket_address.requires((s,)),
        ensures
            match spec_parse_u16(watcher_stream_port@) {
                Err(e) => r == Err::<ConnectionBuildInfo<E, T>, ConnectionBuildError>(
                    ConnectionBuildError::InvalidPort(e),
                ),
                Ok(port) => exists|text: &str, parsed: Option<SocketAddress>|
                    {
                        &&& text@ == spec_address_text(watcher_address@, port)
                        &&& #[trigger] parse_socket_address.ensures((text,), parsed)
                        &&& r == spec_direct_info::<E, T>(port, parsed)
                    },
            },
    {
        let port = match parse_port(watcher_stream_port.as_str()) {
            Ok(p) => p,
            Err(e) => {
                return Err(ConnectionBuildError::InvalidPort(e));
            },
        };
        let text = Self::address_text(watcher_address.as_str(), port);
        let parsed = parse_socket_address(text.as_str());
        Self::direct_info_from_parsed(port, parsed)
    }

    /// Connection information for a peer-to-peer connection to the holder
    /// of `ticket`, through `endpoint`.
    pub fn from_endpoint_and_ticket(endpoint: E, ticket: T) -> (r: ConnectionBuildInfo<E, T>)
        ensures
            r matches ConnectionBuildInfo::Iroh { endpoint: e, ticket: t } && e == endpoint && t
                == ticket,
    {
        ConnectionBuildInfo::Iroh { endpoint, ticket }
    }
}


/// How the watcher is connected to the streamer: directly, with the
/// streamer's events socket and the local port that receives the stream, or
/// peer to peer, with the connection, the frames transport once accepted,
/// and the ticket that named the streamer.
pub enum ConnectionMode<C, F, T> {
    Direct { socket_addr: SocketAddress, watcher_stream_port: u16 },
    Iroh { connection: Option<C>, frames_stream: Option<F>, ticket: T },
}

/// The receiving pipeline the watcher builds: one that listens for RTP over
/// UDP on a port, or one fed with frames from the peer-to-peer connection.
#[derive(Debug, Clone, Copy, PartialEq, Eq, Structural)]
pub enum ClientPipeline {
    Udp { port: u16 },
    Iroh,
}

impl<C, F, T> ConnectionMode<C, F, T> {
    /// The mode of a direct connection built from direct connection
    /// information: the events socket address and the stream port.
    pub fn from_direct_build_info<E, K>(info: ConnectionBuildInfo<E, K>) -> (m: Self)
        requires
            info is Direct,
        ensures
            m matches ConnectionMode::Direct { socket_addr, watcher_stream_port } && info matches ConnectionBuildInfo::Direct { watcher_stream_port: p, tcp_socket_address: a } && socket_addr == a && watcher_stream_port == p,
    {
        match info {
            ConnectionBuildInfo::Direct { watcher_stream_port, tcp_socket_address } => {
                ConnectionMode::Direct { socket_addr: tcp_socket_address, watcher_stream_port }
            },
            ConnectionBuildInfo::Iroh { .. } => {
                vstd::pervasive::unreached()
            },
        }
    }

    /// The mode of a peer-to-peer connection that has just been opened;
    /// the frames transport comes later, when the streamer opens it.
    pub fn iroh_connected(connection: C, ticket: T) -> (m: Self)
        ensures
            m matches ConnectionMode::Iroh { connection: c, frames_stream: f, ticket: t } && c
                == Some(connection) && f is None && t == ticket,
    {
        ConnectionMode::Iroh { connection: Some(connection), frames_stream: None, ticket }
    }

    /// Which receiving pipeline this mode needs.
    pub fn pipeline_kind(&self) -> (p: ClientPipeline)
        ensures
            p == match self {
                ConnectionMode::Direct { watcher_stream_port, .. } => ClientPipeline::Udp {
                    port: *watcher_stream_port,
                },
                ConnectionMode::Iroh { .. } => ClientPipeline::Iroh,
            },
    {
        match self {
            ConnectionMode::Direct { watcher_stream_port, .. } => ClientPipeline::Udp {
                port: *watcher_stream_port,
            },
            ConnectionMode::Iroh { .. } => ClientPipeline::Iroh,
        }
    }
}

} // verus!

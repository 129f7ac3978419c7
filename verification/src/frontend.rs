//! Decisions behind the commands that the desktop front end invokes: the
//! settings it passes on, how a watch request is answered, and which events
//! the front end is told of when watching ends.
use vstd::prelude::*;

use crate::text::{spec_trim, trim_white_space};
use crate::video::scaling_method::ScalingMethod;
use crate::video::windows_streaming_settings::{spec_default_settings, WindowsStreamingSettings};

verus! {

/// The connection mode the user picked in the front end.
#[derive(Debug, Clone, Copy, PartialEq, Eq, Structural)]
pub enum ConnectionModeFrontend {
    Direct,
    Iroh,
}

impl ConnectionModeFrontend {
    /// Whether the streamer sends straight to the watcher's address.
    pub fn is_direct(&self) -> (d: bool)
        ensures
            d == (*self == ConnectionModeFrontend::Direct),
    {
        match self {
            ConnectionModeFrontend::Direct => true,
            ConnectionModeFrontend::Iroh => false,
        }
    }
}

/// The video settings the user chose in the front end.
#[derive(Debug, Clone, Copy, PartialEq, Eq, Structural)]
pub struct VideoSettings {
    pub fps: u16,
    pub bitrate: u32,
    pub resolution: u16,
    pub scaling_method: ScalingMethod,
}

/// The streaming settings for the front end's choice: the defaults, with
/// the frame rate, bitrate, resolution and scaling method the user chose.
pub fn map_windows_settings(frontend_settings: &VideoSettings) -> (s: WindowsStreamingSettings)
    ensures
        s == (WindowsStreamingSettings {
            fps: frontend_settings.fps as u32,
            bitrate: frontend_settings.bitrate,
            resolution: frontend_settings.resolution,
            scaling_method: frontend_settings.scaling_method,
            ..spec_default_settings()
        }),
{
    let mut windows_settings = WindowsStreamingSettings::default();
    windows_settings.fps = frontend_settings.fps as u32;
    windows_settings.bitrate = frontend_settings.bitrate;
    windows_settings.resolution = frontend_settings.resolution;
    windows_settings.scaling_method = frontend_settings.scaling_method;
    windows_settings
}

/// How a watch request is served: directly from the streamer's address, or
/// through the invite ticket the user pasted (white space trimmed off).
#[derive(Debug, PartialEq, Eq)]
pub enum WatchTarget {
    Direct { streamer_ip: String },
    Iroh { ticket: String },
}

pub open spec fn spec_watch_target_is_iroh(ticket: Option<Seq<char>>) -> bool {
    ticket matches Some(t) && spec_trim(t).len() > 0
}

/// The address the watcher connects its sockets to for a watch target: the
/// streamer's address, or the local host for a peer-to-peer session.
pub open spec fn spec_target_ip(target: WatchTarget) -> Seq<char> {
    match target {
        WatchTarget::Direct { streamer_ip } => streamer_ip@,
        WatchTarget::Iroh { .. } => "127.0.0.1"@,
    }
}

impl WatchTarget {
    /// A watch request with a ticket that holds more than white space is
    /// served peer to peer, with the trimmed ticket; otherwise directly,
    /// from the streamer's address.
    pub fn plan(ticket: Option<String>, streamer_ip: String) -> (t: WatchTarget)
        ensures
            match ticket {
                Some(tk) => if spec_trim(tk@).len() > 0 {
                    t matches WatchTarget::Iroh { ticket } && ticket@ == spec_trim(tk@)
                } else {
                    t == WatchTarget::Direct { streamer_ip }
                },
                None => t == WatchTarget::Direct { streamer_ip },
            },
    {
        match ticket {
            Some(tk) => {
                let trimmed = trim_white_space(tk.as_str());
                if trimmed.unicode_len() > 0 {
                    WatchTarget::Iroh { ticket: trimmed.to_owned() }
                } else {
                    WatchTarget::Direct { streamer_ip }
                }
            },
            None => WatchTarget::Direct { streamer_ip },
        }
    }

    /// The address the watcher connects its sockets to.
    pub fn target_ip(&self) -> (ip: String)
        ensures
            ip@ == spec_target_ip(*self),
    {
        match self {
            WatchTarget::Direct { streamer_ip } => streamer_ip.clone(),
            WatchTarget::Iroh { .. } => "127.0.0.1".to_owned(),
        }
    }
}

/// How a watching session ended.
#[derive(Debug, Clone, Copy, PartialEq, Eq, Structural)]
pub enum ReceiveOutcome {
    /// The session ended normally.
    Finished,
    /// The streamer refused the connection: it is not streaming.
    ConnectionRefused,
    /// Any other failure.
    Failed,
}

/// Events the front end is told of.
#[derive(Debug, Clone, Copy, PartialEq, Eq, Structural)]
pub enum FrontendEvent {
    ServerNotStreaming,
    StreamingStopped,
}

impl FrontendEvent {
    /// The event's name on the front end's event bus.
    pub fn name(&self) -> (n: &'static str)
        ensures
            n@ == match self {
                FrontendEvent::ServerNotStreaming => "server-not-streaming"@,
                FrontendEvent::StreamingStopped => "streaming-stopped"@,
            },
    {
        match self {
            FrontendEvent::ServerNotStreaming => "server-not-streaming",
            FrontendEvent::StreamingStopped => "streaming-stopped",
        }
    }
}

pub open spec fn spec_events_after_receive(outcome: ReceiveOutcome) -> Seq<FrontendEvent> {
    match outcome {
        ReceiveOutcome::Finished => seq![FrontendEvent::StreamingStopped],
        ReceiveOutcome::ConnectionRefused => seq![
            FrontendEvent::ServerNotStreaming,
            FrontendEvent::StreamingStopped,
        ],
        ReceiveOutcome::Failed => seq![
            FrontendEvent::StreamingStopped,
            FrontendEvent::StreamingStopped,
        ],
    }
}

/// The events emitted, in order, when a watching session ends: a refused
/// connection is reported as the streamer not streaming, another failure as
/// the stream stopping, and in every case the stream stopping last.
pub fn events_after_receive(outcome: ReceiveOutcome) -> (events: Vec<FrontendEvent>)
    ensures
        events@ == spec_events_after_receive(outcome),
{
    let mut events: Vec<FrontendEvent> = Vec::new();
    match outcome {
        ReceiveOutcome::Finished => {},
        ReceiveOutcome::ConnectionRefused => events.push(FrontendEvent::ServerNotStreaming),
        ReceiveOutcome::Failed => events.push(FrontendEvent::StreamingStopped),
    }
    events.push(FrontendEvent::StreamingStopped);
    assert(events@ =~= spec_events_after_receive(outcome));
    events
}

/// Whatever the outcome of a watching session, the front end is last told
/// that the stream stopped.
pub proof fn law_watch_always_ends_with_stopped(outcome: ReceiveOutcome)
    ensures
        spec_events_after_receive(outcome).len() >= 1,
        spec_events_after_receive(outcome).last() == FrontendEvent::StreamingStopped,
{
}

} // verus!

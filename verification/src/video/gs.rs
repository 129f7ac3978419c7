//! GStreamer pipeline descriptions and the decisions taken on messages from
//! a pipeline's bus.
use vstd::prelude::*;

use crate::text::{push_decimal, spec_decimal};

verus! {

/// The kinds of message a pipeline's bus delivers that the streaming loops
/// tell apart.
#[derive(Debug, Clone, Copy, PartialEq, Eq, Structural)]
pub enum BusMessageKind {
    Eos,
    Error,
    Warning,
    Info,
    StateChanged,
    Element,
    Qos,
    Other,
}

/// A pipeline stops at the end of the stream and on an error; every other
/// message is only logged.
pub fn ends_stream(kind: BusMessageKind) -> (stop: bool)
    ensures
        stop == (kind == BusMessageKind::Eos || kind == BusMessageKind::Error),
{
    match kind {
        BusMessageKind::Eos => true,
        BusMessageKind::Error => true,
        _ => false,
    }
}

/// The description of the streamer's Linux pipeline: the PipeWire node is
/// captured at 60 frames per second, encoded to H.264 on the GPU, and sent
/// as RTP to `host`:`port`.
pub open spec fn spec_screen_stream_description(node_id: u32, host: Seq<char>, port: Seq<char>) -> Seq<
    char,
> {
    "pipewiresrc path="@ + spec_decimal(node_id as nat)
        + " do-timestamp=true ! videorate drop-only=true ! video/x-raw,framerate=60/1 ! queue max-size-time=500000000 leaky=downstream ! videoconvert ! video/x-raw,format=NV12 ! vaapih264enc rate-control=cbr bitrate=15000 keyframe-period=90 quality-level=1 ! video/x-h264,profile=high ! h264parse ! rtph264pay config-interval=-1 pt=96 mtu=1400 ! queue max-size-time=1000000000 ! udpsink host="@
        + host + " port="@ + port + " sync=false async=false buffer-size=8388608"@
}

/// Builds the description of the streamer's Linux pipeline for a PipeWire
/// node and a destination.
pub fn screen_stream_description(node_id: u32, host: &str, port: &str) -> (d: String)
    ensures
        d@ == spec_screen_stream_description(node_id, host@, port@),
{
    let mut d = "pipewiresrc path=".to_owned();
    push_decimal(&mut d, node_id);
    d.append(
        " do-timestamp=true ! videorate drop-only=true ! video/x-raw,framerate=60/1 ! queue max-size-time=500000000 leaky=downstream ! videoconvert ! video/x-raw,format=NV12 ! vaapih264enc rate-control=cbr bitrate=15000 keyframe-period=90 quality-level=1 ! video/x-h264,profile=high ! h264parse ! rtph264pay config-interval=-1 pt=96 mtu=1400 ! queue max-size-time=1000000000 ! udpsink host=",
    );
    d.append(host);
    d.append(" port=");
    d.append(port);
    d.append(" sync=false async=false buffer-size=8388608");
    d
}

/// The streamer's pipeline starts by capturing the given PipeWire node and
/// ends by sending to the given host and port, for every node, host and
/// port text.
pub proof fn law_screen_stream_targets(node_id: u32, host: Seq<char>, port: Seq<char>)
    ensures
        ({
            let d = spec_screen_stream_description(node_id, host, port);
            let head = "pipewiresrc path="@ + spec_decimal(node_id as nat) + " do-timestamp=true"@;
            let tail = "udpsink host="@ + host + " port="@ + port
                + " sync=false async=false buffer-size=8388608"@;
            &&& d.len() >= head.len()
            &&& d.len() >= tail.len()
            &&& d.take(head.len() as int) == head
            &&& d.skip(d.len() - tail.len()) == tail
        }),
{
    let mid = " do-timestamp=true ! videorate drop-only=true ! video/x-raw,framerate=60/1 ! queue max-size-time=500000000 leaky=downstream ! videoconvert ! video/x-raw,format=NV12 ! vaapih264enc rate-control=cbr bitrate=15000 keyframe-period=90 quality-level=1 ! video/x-h264,profile=high ! h264parse ! rtph264pay config-interval=-1 pt=96 mtu=1400 ! queue max-size-time=1000000000 ! udpsink host="@;
    reveal_strlit(" do-timestamp=true ! videorate drop-only=true ! video/x-raw,framerate=60/1 ! queue max-size-time=500000000 leaky=downstream ! videoconvert ! video/x-raw,format=NV12 ! vaapih264enc rate-control=cbr bitrate=15000 keyframe-period=90 quality-level=1 ! video/x-h264,profile=high ! h264parse ! rtph264pay config-interval=-1 pt=96 mtu=1400 ! queue max-size-time=1000000000 ! udpsink host=");
    reveal_strlit(" do-timestamp=true");
    reveal_strlit("udpsink host=");
    let ts = " do-timestamp=true"@;
    let uh = "udpsink host="@;
    assert(mid.take(ts.len() as int) =~= ts);
    assert(mid.skip(mid.len() - uh.len()) =~= uh);
    let pre = "pipewiresrc path="@ + spec_decimal(node_id as nat);
    let rest = host + " port="@ + port + " sync=false async=false buffer-size=8388608"@;
    let d = spec_screen_stream_description(node_id, host, port);
    assert(d =~= pre + mid + rest);
    let head = pre + ts;
    let tail = uh + rest;
    assert(d.take(head.len() as int) =~= head);
    assert(d.skip(d.len() - tail.len()) =~= tail);
    assert("pipewiresrc path="@ + spec_decimal(node_id as nat) + " do-timestamp=true"@ =~= head);
    assert("udpsink host="@ + host + " port="@ + port + " sync=false async=false buffer-size=8388608"@
        =~= tail);
}

/// The streamer prints statistics once at least two seconds passed since
/// the last print.
pub fn stats_due(elapsed_secs: u64) -> (due: bool)
    ensures
        due == (elapsed_secs >= 2),
{
    elapsed_secs >= 2
}

} // verus!

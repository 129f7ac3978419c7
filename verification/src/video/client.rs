//! The standalone Linux receiver: its pipeline and when its loop stops.
use vstd::prelude::*;

use crate::video::gs::BusMessageKind;

verus! {

pub open spec fn spec_receive_description() -> Seq<char> {
    "udpsrc port=5000 buffer-size=8388608 ! application/x-rtp, media=(string)video, clock-rate=(int)90000, encoding-name=(string)H264, payload=(int)96 ! rtpjitterbuffer latency=500 ! queue max-size-time=1000000000 leaky=downstream ! rtph264depay ! h264parse ! queue max-size-time=500000000 leaky=downstream ! vah264dec ! vapostproc ! videoconvert ! autovideosink sync=false"@
}

/// A pipeline description: its elements joined by ` ! `.
pub open spec fn join_stages(stages: Seq<Seq<char>>) -> Seq<char>
    decreases stages.len(),
{
    if stages.len() == 0 {
        Seq::empty()
    } else if stages.len() == 1 {
        stages[0]
    } else {
        stages[0] + " ! "@ + join_stages(stages.drop_first())
    }
}

/// The receiver's chain of elements: UDP source, RTP caps, jitter buffer,
/// queue, RTP depayloader, H.264 parser, queue, decoder, post-processor,
/// converter and sink.
pub open spec fn receive_stages() -> Seq<Seq<char>> {
    seq![
        "udpsrc port=5000 buffer-size=8388608"@,
        "application/x-rtp, media=(string)video, clock-rate=(int)90000, encoding-name=(string)H264, payload=(int)96"@,
        "rtpjitterbuffer latency=500"@,
        "queue max-size-time=1000000000 leaky=downstream"@,
        "rtph264depay"@,
        "h264parse"@,
        "queue max-size-time=500000000 leaky=downstream"@,
        "vah264dec"@,
        "vapostproc"@,
        "videoconvert"@,
        "autovideosink sync=false"@,
    ]
}

/// The receiver's pipeline is exactly its chain of elements: RTP from UDP
/// port 5000 is de-jittered, depayloaded to H.264, parsed, decoded and
/// shown.
pub proof fn law_receive_pipeline_stages()
    ensures
        spec_receive_description() == join_stages(receive_stages()),
{
    reveal_strlit("udpsrc port=5000 buffer-size=8388608 ! application/x-rtp, media=(string)video, clock-rate=(int)90000, encoding-name=(string)H264, payload=(int)96 ! rtpjitterbuffer latency=500 ! queue max-size-time=1000000000 leaky=downstream ! rtph264depay ! h264parse ! queue max-size-time=500000000 leaky=downstream ! vah264dec ! vapostproc ! videoconvert ! autovideosink sync=false");
    reveal_strlit(" ! ");
    reveal_strlit("udpsrc port=5000 buffer-size=8388608");
    reveal_strlit("application/x-rtp, media=(string)video, clock-rate=(int)90000, encoding-name=(string)H264, payload=(int)96");
    reveal_strlit("rtpjitterbuffer latency=500");
    reveal_strlit("queue max-size-time=1000000000 leaky=downstream");
    reveal_strlit("rtph264depay");
    reveal_strlit("h264parse");
    reveal_strlit("queue max-size-time=500000000 leaky=downstream");
    reveal_strlit("vah264dec");
    reveal_strlit("vapostproc");
    reveal_strlit("videoconvert");
    reveal_strlit("autovideosink sync=false");
    reveal_with_fuel(join_stages, 12);
    let s = receive_stages();
    let sep = " ! "@;
    assert(s.drop_first().drop_first().drop_first().drop_first().drop_first().drop_first().drop_first().drop_first().drop_first().drop_first() =~= seq!["autovideosink sync=false"@]);
    assert(join_stages(s) =~= s[0] + sep + s[1] + sep + s[2] + sep + s[3] + sep + s[4] + sep + s[5]
        + sep + s[6] + sep + s[7] + sep + s[8] + sep + s[9] + sep + s[10]);
    assert(spec_receive_description() =~= join_stages(s));
}

/// The receiver's pipeline: RTP H.264 from UDP port 5000, decoded on the
/// GPU and shown in a window.
pub fn receive_description() -> (d: &'static str)
    ensures
        d@ == spec_receive_description(),
{
    "udpsrc port=5000 buffer-size=8388608 ! application/x-rtp, media=(string)video, clock-rate=(int)90000, encoding-name=(string)H264, payload=(int)96 ! rtpjitterbuffer latency=500 ! queue max-size-time=1000000000 leaky=downstream ! rtph264depay ! h264parse ! queue max-size-time=500000000 leaky=downstream ! vah264dec ! vapostproc ! videoconvert ! autovideosink sync=false"
}

/// The address of the streamer's events socket that the receiver connects
/// to.
pub fn events_address() -> (a: &'static str)
    ensures
        a@ == "127.0.0.1:8010"@,
{
    "127.0.0.1:8010"
}

/// One pass of the receiver's loop ends it when an event came in on the
/// events socket, or when the bus reports the end of the stream or an
/// error.
pub fn receive_should_stop(event_received: bool, message: Option<BusMessageKind>) -> (stop: bool)
    ensures
        stop == (event_received || message == Some(BusMessageKind::Eos) || message == Some(
            BusMessageKind::Error,
        )),
{
    let bus_stop = match message {
        Some(BusMessageKind::Eos) => true,
        Some(BusMessageKind::Error) => true,
        _ => false,
    };
    event_received || bus_stop
}

} // verus!

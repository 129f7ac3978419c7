use streaming_server::gui::{
    can_draw, fill_pixels, window_event_action, DrawState, WindowAction, WindowEventKind, MAGENTA,
};
use streaming_server::video::capture::{bytes_per_pixel, frame_sizes, pack_rows, pts_nanos, FrameThrottle};
use streaming_server::video::client::{events_address, receive_description, receive_should_stop};
use streaming_server::video::gs::{ends_stream, screen_stream_description, stats_due, BusMessageKind};
use streaming_server::video::scaling_method::ScalingMethod;
use streaming_server::video::windows_streaming_settings::{PixelFormat, WindowsStreamingSettings};

#[test]
fn gst_scaling_methods() {
    assert_eq!(ScalingMethod::NearestNeighbour.as_gst_method(), 0);
    assert_eq!(ScalingMethod::Bilinear.as_gst_method(), 1);
    assert_eq!(ScalingMethod::Lanczos.as_gst_method(), 3);
    assert_eq!(ScalingMethod::Mitchell.as_gst_method(), 9);
}

#[test]
fn default_streaming_settings() {
    let s = WindowsStreamingSettings::default();
    assert_eq!(s.buffer_count, 2);
    assert_eq!(s.pixel_format, PixelFormat::B8G8R8A8UIntNormalized);
    assert_eq!(s.fps, 30);
    assert_eq!(s.bitrate, 10000);
    assert_eq!(s.resolution, 1080);
    assert_eq!(s.scaling_method, ScalingMethod::NearestNeighbour);
}

#[test]
fn pixel_sizes() {
    assert_eq!(bytes_per_pixel(PixelFormat::B8G8R8A8UIntNormalized), 4);
    assert_eq!(bytes_per_pixel(PixelFormat::R16G16B16A16Float), 8);
    assert_eq!(frame_sizes(1920, 1080, PixelFormat::B8G8R8A8UIntNormalized), (7680, 8_294_400));
    assert_eq!(frame_sizes(2, 3, PixelFormat::R16G16B16A16Float), (16, 48));
    assert_eq!(frame_sizes(5, 0, PixelFormat::B8G8R8A8UIntNormalized), (20, 0));
}

#[test]
fn rows_are_packed_without_padding() {
    // Three rows of 2 bytes each, 4 bytes apart in the mapping.
    let src = [1u8, 2, 0xAA, 0xAA, 3, 4, 0xBB, 0xBB, 5, 6];
    assert_eq!(pack_rows(&src, 4, 2, 3), vec![1, 2, 3, 4, 5, 6]);
    assert_eq!(pack_rows(&src, 4, 2, 0), Vec::<u8>::new());
    assert_eq!(pack_rows(&src, 2, 2, 5), src.to_vec());
}

#[test]
fn throttle_spaces_frames() {
    let mut t = FrameThrottle::new();
    let interval = 33_333_333u64;
    assert!(t.let_through(100_000_000, interval));
    assert_eq!(t.last_nanos, 100_000_000);
    assert!(!t.let_through(110_000_000, interval));
    assert_eq!(t.last_nanos, 100_000_000);
    assert!(t.let_through(133_333_333, interval));
    assert_eq!(t.last_nanos, 133_333_333);
    assert!(!t.let_through(133_333_333, interval));
    let mut zero = FrameThrottle::new();
    assert!(zero.let_through(0, 0));
}

#[test]
fn presentation_time_from_ticks() {
    assert_eq!(pts_nanos(0), 0);
    assert_eq!(pts_nanos(12345), 1_234_500);
}

#[test]
fn bus_messages_that_end_a_stream() {
    assert!(ends_stream(BusMessageKind::Eos));
    assert!(ends_stream(BusMessageKind::Error));
    for k in [
        BusMessageKind::Warning,
        BusMessageKind::Info,
        BusMessageKind::StateChanged,
        BusMessageKind::Element,
        BusMessageKind::Qos,
        BusMessageKind::Other,
    ] {
        assert!(!ends_stream(k));
    }
}

#[test]
fn receiver_stop_conditions() {
    assert!(receive_should_stop(true, None));
    assert!(receive_should_stop(false, Some(BusMessageKind::Eos)));
    assert!(receive_should_stop(false, Some(BusMessageKind::Error)));
    assert!(!receive_should_stop(false, Some(BusMessageKind::Warning)));
    assert!(!receive_should_stop(false, None));
}

#[test]
fn screen_stream_pipeline_text() {
    let d = screen_stream_description(57, "192.168.1.5", "5000");
    let expected = format!(
        "pipewiresrc path={} do-timestamp=true ! \
     videorate drop-only=true ! \
     video/x-raw,framerate=60/1 ! \
     queue max-size-time=500000000 leaky=downstream ! \
     videoconvert ! \
     video/x-raw,format=NV12 ! \
     vaapih264enc rate-control=cbr bitrate=15000 keyframe-period=90 quality-level=1 ! \
     video/x-h264,profile=high ! \
     h264parse ! \
     rtph264pay config-interval=-1 pt=96 mtu=1400 ! \
     queue max-size-time=1000000000 ! \
     udpsink host={} port={} sync=false async=false buffer-size=8388608",
        57, "192.168.1.5", "5000"
    );
    assert_eq!(d, expected);
    assert!(screen_stream_description(0, "h", "p").starts_with("pipewiresrc path=0 do-timestamp"));
}

#[test]
fn receiver_pipeline_text() {
    let d = receive_description();
    assert!(d.starts_with("udpsrc port=5000 buffer-size=8388608 ! application/x-rtp, media=(string)video"));
    assert!(d.ends_with("vah264dec ! vapostproc ! videoconvert ! autovideosink sync=false"));
    assert_eq!(events_address(), "127.0.0.1:8010");
}

#[test]
fn stats_every_two_seconds() {
    assert!(!stats_due(0));
    assert!(!stats_due(1));
    assert!(stats_due(2));
    assert!(stats_due(10));
}

#[test]
fn helper_window_events() {
    assert_eq!(window_event_action(true, WindowEventKind::RedrawRequested), WindowAction::Exit);
    assert_eq!(window_event_action(false, WindowEventKind::CloseRequested), WindowAction::Exit);
    assert_eq!(window_event_action(false, WindowEventKind::RedrawRequested), WindowAction::Draw);
    assert_eq!(window_event_action(false, WindowEventKind::Other), WindowAction::Ignore);
}

#[test]
fn helper_window_painting() {
    let mut buf = vec![0u32; 6];
    fill_pixels(&mut buf, MAGENTA);
    assert!(buf.iter().all(|&p| p == 0xFFFF00FF));
    assert!(can_draw(800, 600));
    assert!(!can_draw(0, 600));
    assert!(!can_draw(800, 0));
    let mut s = DrawState::new();
    assert!(s.after_draw());
    assert!(!s.after_draw());
    assert!(s.first_draw_done);
}

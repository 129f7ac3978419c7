//! Capture and encoder settings of the Windows streamer.
use vstd::prelude::*;

use crate::video::scaling_method::ScalingMethod;

verus! {

/// Pixel layouts of captured frames: 8-bit BGRA, 16-bit float RGBA (for
/// HDR), or another DirectX format by its raw number.
#[derive(Debug, Clone, Copy, PartialEq, Eq, Structural)]
pub enum PixelFormat {
    B8G8R8A8UIntNormalized,
    R16G16B16A16Float,
    Other(i32),
}

/// Settings of a capture-and-encode session.
#[derive(Debug, Clone, Copy, PartialEq, Eq, Structural)]
pub struct WindowsStreamingSettings {
    /// Frames the GPU may prepare while the current one is shown.
    pub buffer_count: i32,
    pub pixel_format: PixelFormat,
    pub fps: u32,
    pub bitrate: u32,
    pub resolution: u16,
    pub scaling_method: ScalingMethod,
}

pub open spec fn spec_default_settings() -> WindowsStreamingSettings {
    WindowsStreamingSettings {
        buffer_count: 2,
        pixel_format: PixelFormat::B8G8R8A8UIntNormalized,
        fps: 30,
        bitrate: 10000,
        resolution: 1080,
        scaling_method: ScalingMethod::NearestNeighbour,
    }
}

impl Default for WindowsStreamingSettings {
    /// Two buffers, 8-bit BGRA, 30 frames per second, 10000 kbit/s, 1080
    /// lines, nearest-neighbour scaling.
    fn default() -> (s: Self)
        ensures
            s == spec_default_settings(),
    {
        WindowsStreamingSettings {
            buffer_count: 2,
            pixel_format: PixelFormat::B8G8R8A8UIntNormalized,
            fps: 30,
            bitrate: 10000,
            resolution: 1080,
            scaling_method: ScalingMethod::NearestNeighbour,
        }
    }
}

} // verus!

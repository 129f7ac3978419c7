//! Scaling methods that the encoder pipeline offers.
use vstd::prelude::*;

verus! {

/// How frames are rescaled before encoding.
#[derive(Debug, Clone, Copy, PartialEq, Eq, Structural)]
pub enum ScalingMethod {
    NearestNeighbour,
    Bilinear,
    Lanczos,
    Mitchell,
}

/// The number GStreamer's `videoscale` uses for each method.
pub open spec fn spec_gst_method(m: ScalingMethod) -> u8 {
    match m {
        ScalingMethod::NearestNeighbour => 0,
        ScalingMethod::Bilinear => 1,
        ScalingMethod::Lanczos => 3,
        ScalingMethod::Mitchell => 9,
    }
}

impl ScalingMethod {
    /// The `method` value of GStreamer's `videoscale` element for this method.
    pub fn as_gst_method(&self) -> (r: u8)
        ensures
            r == spec_gst_method(*self),
    {
        match self {
            ScalingMethod::NearestNeighbour => 0,
            ScalingMethod::Bilinear => 1,
            ScalingMethod::Lanczos => 3,
            ScalingMethod::Mitchell => 9,
        }
    }
}

} // verus!

//! Video: encoder settings, pipeline descriptions, pipeline-bus decisions
//! and the handling of captured frames.
pub mod capture;
pub mod client;
pub mod gs;
pub mod scaling_method;
pub mod windows_streaming_settings;

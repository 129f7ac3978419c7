//! Verified core of a screen-streaming service: the wire framing of the
//! transports, the connection set-up rules, capture-frame packing and the
//! decisions that drive streaming and watching sessions.
pub mod frontend;
pub mod gui;
pub mod network;
pub mod text;
pub mod video;

//! Re-exports of the event types under the module name the transports use.
pub use crate::network::transport::StreamingEvent;
pub use crate::network::transport::Transport;

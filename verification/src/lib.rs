//! Heartbeat exchange engine for a device/dashboard publish-subscribe system.
//!
//! A device announces itself once per second with a monotonically increasing
//! sequence number; a dashboard observes all devices' heartbeats as they
//! arrive. This crate holds the verified core: device identity, the heartbeat
//! message shape, the publisher and subscriber state machines, role selection,
//! and the exact text of the reported lines. The distribution service that
//! carries the messages (discovery, wire format, delivery) is an external
//! collaborator driven by the surrounding process.

mod text;
pub mod heartbeat;
pub mod identity;
pub mod publisher;
pub mod role;
pub mod subscriber;

pub use text::dec_of;
pub use text::received_line;
pub use text::received_line_of;
pub use text::sent_line;
pub use text::sent_line_of;
pub use text::u32_to_decimal;

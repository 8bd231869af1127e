//! The heartbeat message exchanged between the two roles, and the fixed
//! descriptors (topic, delivery quality) both roles hand to the distribution
//! service at startup.

use vstd::prelude::*;
use vstd::string::StringExecFns;

verus! {

/// The mathematical model of a heartbeat: the emitting device's rendered
/// identity and its sequence number.
pub ghost struct HeartbeatView {
    pub device_id: Seq<char>,
    pub sequence_number: u32,
}

/// One heartbeat message: created by the emitting role once per tick, never
/// mutated after creation. The distribution service serializes it for
/// transmission.
pub struct Heartbeat {
    /// The emitting process's identity, as its hexadecimal rendering.
    pub device_id: String,
    /// Position of this message in the emitter's run: 0 for the first tick,
    /// then up by exactly one per tick.
    pub sequence_number: u32,
}

impl View for Heartbeat {
    type V = HeartbeatView;

    open spec fn view(&self) -> HeartbeatView {
        HeartbeatView { device_id: self.device_id@, sequence_number: self.sequence_number }
    }
}

/// The logical channel both roles must agree on out-of-band. Fixed at
/// startup; never negotiated at runtime.
pub struct TopicDescriptor {
    pub name: String,
    pub payload_type: String,
}

/// The one topic this system uses.
pub fn heartbeat_topic() -> (t: TopicDescriptor)
    ensures
        t.name@ == "heartbeat_topic"@,
        t.payload_type@ == "TMS_Heartbeat"@,
{
    TopicDescriptor {
        name: String::from_str("heartbeat_topic"),
        payload_type: String::from_str("TMS_Heartbeat"),
    }
}

/// Delivery quality the core asks of the distribution service: reliable
/// delivery, with a zero blocking bound on writes (a write the service cannot
/// accept at once fails immediately instead of waiting).
pub struct QosDescriptor {
    pub reliable: bool,
    pub max_blocking_nanos: u64,
}

/// The quality-of-service settings both roles are created with.
pub fn heartbeat_qos() -> (q: QosDescriptor)
    ensures
        q.reliable,
        q.max_blocking_nanos == 0,
{
    QosDescriptor { reliable: true, max_blocking_nanos: 0 }
}

} // verus!

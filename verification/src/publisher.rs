//! The emitting role: one heartbeat per timer tick, with a sequence number
//! that starts at 0 and goes up by exactly one per tick, whatever the outcome
//! of each submission and however many writer status events interleave.
//!
//! The loop itself (the timer, the transport, the console) is driven by the
//! surrounding process; this module is the state machine it consults: which
//! heartbeat to emit next, and what each event changes.

use vstd::prelude::*;
use crate::heartbeat::Heartbeat;
use crate::heartbeat::HeartbeatView;
use crate::identity::DeviceId;

verus! {

/// An event the emitting loop can observe: the periodic timer fired, or the
/// distribution service raised a writer status event.
#[derive(Clone, Copy)]
pub enum PublisherEvent {
    Tick,
    Status,
}

/// What the emitting loop must do next: hand a heartbeat to the distribution
/// service and report the send, or report the status event it observed.
pub enum PublisherAction {
    Emit(Heartbeat),
    ReportStatus,
}

/// The mathematical model of the emitting role's state.
pub ghost struct PublisherView {
    /// The process's identity, as rendered in every emitted heartbeat.
    pub device_id: Seq<char>,
    /// Sequence number the next tick will emit.
    pub next_seq: u32,
    /// Every heartbeat constructed so far, in emission order.
    pub sent: Seq<HeartbeatView>,
}

impl PublisherView {
    /// The history is exactly the consecutive sequence numbers below
    /// `next_seq`, all carrying the process's identity.
    pub open spec fn wf(self) -> bool {
        &&& self.sent.len() == self.next_seq as int
        &&& forall|i: int|
            0 <= i < self.sent.len() ==> (#[trigger] self.sent[i]).sequence_number as int == i
        &&& forall|i: int|
            0 <= i < self.sent.len() ==> (#[trigger] self.sent[i]).device_id == self.device_id
    }
}

/// What one event does to the state: a tick appends the next heartbeat and
/// advances the counter; a status event changes nothing.
pub open spec fn publisher_step(s: PublisherView, e: PublisherEvent) -> PublisherView {
    match e {
        PublisherEvent::Tick => PublisherView {
            device_id: s.device_id,
            next_seq: (s.next_seq + 1) as u32,
            sent: s.sent.push(
                HeartbeatView { device_id: s.device_id, sequence_number: s.next_seq },
            ),
        },
        PublisherEvent::Status => s,
    }
}

/// The state after observing a whole sequence of events, first to last.
pub open spec fn publisher_run(s: PublisherView, events: Seq<PublisherEvent>) -> PublisherView
    decreases events.len(),
{
    if events.len() == 0 {
        s
    } else {
        publisher_run(publisher_step(s, events[0]), events.skip(1))
    }
}

/// How many of the events are timer ticks.
pub open spec fn count_ticks(events: Seq<PublisherEvent>) -> nat
    decreases events.len(),
{
    if events.len() == 0 {
        0
    } else {
        (if events[0] is Tick {
            1nat
        } else {
            0nat
        }) + count_ticks(events.skip(1))
    }
}

/// State machine of the emitting role. Entered once a writer handle exists;
/// runs until the process is killed.
pub struct Publisher {
    /// The identity generated at process start, immutable thereafter.
    pub device_id: DeviceId,
    /// Sequence number the next tick will emit.
    pub next_seq: u32,
    /// Every heartbeat constructed so far, in emission order.
    pub sent: Ghost<Seq<HeartbeatView>>,
}

impl View for Publisher {
    type V = PublisherView;

    open spec fn view(&self) -> PublisherView {
        PublisherView {
            device_id: self.device_id.hex@,
            next_seq: self.next_seq,
            sent: self.sent@,
        }
    }
}

impl Publisher {
    pub open spec fn wf(self) -> bool {
        &&& self.device_id.wf()
        &&& self@.wf()
    }

    /// Enter the running state: empty history, sequence number 0.
    pub fn new(device_id: DeviceId) -> (p: Publisher)
        requires
            device_id.wf(),
        ensures
            p.wf(),
            p.device_id == device_id,
            p.next_seq == 0,
            p.sent@ =~= Seq::<HeartbeatView>::empty(),
    {
        Publisher { device_id, next_seq: 0, sent: Ghost(Seq::empty()) }
    }

    /// One timer tick: construct the heartbeat carrying this process's
    /// identity and the next sequence number, record it, and advance the
    /// counter — before and regardless of how the submission fares.
    pub fn on_tick(&mut self) -> (h: Heartbeat)
        requires
            old(self).wf(),
            old(self).next_seq < u32::MAX,
        ensures
            final(self).wf(),
            final(self)@ == publisher_step(old(self)@, PublisherEvent::Tick),
            final(self).device_id == old(self).device_id,
            h@.device_id == old(self).device_id.hex@,
            h@.sequence_number == old(self).next_seq,
            final(self).next_seq == old(self).next_seq + 1,
            final(self).sent@ == old(self).sent@.push(h@),
    {
        let h = Heartbeat {
            device_id: self.device_id.hex.clone(),
            sequence_number: self.next_seq,
        };
        self.sent = Ghost(self.sent@.push(h@));
        self.next_seq = self.next_seq + 1;
        h
    }

    /// The outcome of a submission never changes the state: a failure is only
    /// reported, and the next tick goes on with the next sequence number (no
    /// redelivery of the failed message).
    pub fn on_write_outcome(&mut self, ok: bool) -> (report_failure: bool)
        ensures
            *final(self) == *old(self),
            report_failure == !ok,
    {
        !ok
    }

    /// One step of the emitting loop, for whichever event source became
    /// ready first.
    pub fn step(&mut self, e: PublisherEvent) -> (a: PublisherAction)
        requires
            old(self).wf(),
            old(self).next_seq < u32::MAX,
        ensures
            final(self).wf(),
            final(self).device_id == old(self).device_id,
            final(self)@ == publisher_step(old(self)@, e),
            e is Tick ==> (a matches PublisherAction::Emit(h) && h@.device_id == old(
                self,
            ).device_id.hex@ && h@.sequence_number == old(self).next_seq),
            e is Status ==> *final(self) == *old(self) && a is ReportStatus,
    {
        match e {
            PublisherEvent::Tick => PublisherAction::Emit(self.on_tick()),
            PublisherEvent::Status => PublisherAction::ReportStatus,
        }
    }
}

/// The identity is generated once, before the loop starts, and never changes:
/// every heartbeat a well-formed emitter has ever emitted carries that same
/// identity.
pub proof fn lemma_identity_constant(p: Publisher)
    requires
        p.wf(),
    ensures
        forall|i: int|
            0 <= i < p.sent@.len() ==> (#[trigger] p.sent@[i]).device_id == p.device_id.hex@,
        forall|i: int, j: int|
            0 <= i < p.sent@.len() && 0 <= j < p.sent@.len() ==> p.sent@[i].device_id
                == p.sent@[j].device_id,
{
}

/// Each step keeps the state well formed, keeps the identity, never rewrites
/// history, and moves the counter only on a tick.
pub proof fn lemma_publisher_step_wf(s: PublisherView, e: PublisherEvent)
    requires
        s.wf(),
        s.next_seq < u32::MAX || !(e is Tick),
    ensures
        publisher_step(s, e).wf(),
        publisher_step(s, e).device_id == s.device_id,
        publisher_step(s, e).sent.take(s.sent.len() as int) == s.sent,
        publisher_step(s, e).next_seq == s.next_seq + (if e is Tick {
            1int
        } else {
            0int
        }),
{
    assert(publisher_step(s, e).sent.take(s.sent.len() as int) =~= s.sent);
}

/// A whole run keeps the state well formed and performs one emission per
/// tick, as long as the tick count stays within the counter's range.
pub proof fn lemma_publisher_run_wf(s: PublisherView, events: Seq<PublisherEvent>)
    requires
        s.wf(),
        s.next_seq + count_ticks(events) <= u32::MAX,
    ensures
        publisher_run(s, events).wf(),
        publisher_run(s, events).device_id == s.device_id,
        publisher_run(s, events).next_seq == s.next_seq + count_ticks(events),
    decreases events.len(),
{
    if events.len() > 0 {
        lemma_publisher_step_wf(s, events[0]);
        lemma_publisher_run_wf(publisher_step(s, events[0]), events.skip(1));
    }
}

/// A run of a fresh emitter that observes `N` ticks emits exactly `N`
/// heartbeats, with sequence numbers `0, 1, ..., N-1` in order, no gaps and
/// no repeats, each carrying the identity generated at start — however many
/// status events interleave, and whatever the write outcomes were (a write
/// outcome never reaches the state).
pub proof fn lemma_publisher_run_emits_consecutive(id: Seq<char>, events: Seq<PublisherEvent>)
    requires
        count_ticks(events) <= u32::MAX,
    ensures
        ({
            let r = publisher_run(
                (PublisherView { device_id: id, next_seq: 0, sent: Seq::empty() }),
                events,
            );
            &&& r.sent.len() == count_ticks(events)
            &&& forall|i: int|
                0 <= i < r.sent.len() ==> (#[trigger] r.sent[i]).sequence_number as int == i
            &&& forall|i: int| 0 <= i < r.sent.len() ==> (#[trigger] r.sent[i]).device_id == id
        }),
{
    let s0 = PublisherView { device_id: id, next_seq: 0, sent: Seq::empty() };
    lemma_publisher_run_wf(s0, events);
}

} // verus!

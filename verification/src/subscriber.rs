//! The observing role: report every heartbeat in the order the distribution
//! service delivers it, until the service signals a receive error; that error
//! ends observation for the rest of the run.
//!
//! Policy on a receive error (the halting event): this design ends the whole
//! loop — message reporting and status reporting both stop, and the
//! surrounding process falls out of its event loop.
//!
//! The loop itself (the transport streams, the console) is driven by the
//! surrounding process; this module is the state machine it consults.

use vstd::prelude::*;
use crate::heartbeat::Heartbeat;
use crate::heartbeat::HeartbeatView;
use crate::text;

verus! {

/// An event the observing loop can observe: the service delivered a
/// heartbeat, the service signalled a receive error, or it raised a reader
/// status event.
pub enum SubscriberEvent {
    Sample(Heartbeat),
    ReadFailure,
    Status,
}

/// What the observing loop must do next: report a received heartbeat with
/// exactly this line, report the receive error and leave the loop, report
/// the status event, or do nothing (the loop has already halted).
pub enum SubscriberAction {
    Report(String),
    Halt,
    ReportStatus,
    Ignore,
}

/// The mathematical model of the observing role's state.
pub ghost struct SubscriberView {
    /// Still listening? False once a receive error arrived.
    pub listening: bool,
    /// Every heartbeat the service has delivered, in delivery order.
    pub delivered: Seq<HeartbeatView>,
    /// Every heartbeat reported, in report order.
    pub reported: Seq<HeartbeatView>,
}

impl SubscriberView {
    /// What is reported is exactly a prefix of what was delivered, in the
    /// same order; while listening, it is all of it.
    pub open spec fn wf(self) -> bool {
        &&& self.reported.len() <= self.delivered.len()
        &&& self.reported == self.delivered.take(self.reported.len() as int)
        &&& self.listening ==> self.reported == self.delivered
    }
}

/// What one event does to the state: while listening, a delivered heartbeat
/// is also reported and a receive error halts the loop; once halted, nothing
/// is reported any more (deliveries still count as delivered).
pub open spec fn subscriber_step(s: SubscriberView, e: SubscriberEvent) -> SubscriberView {
    match e {
        SubscriberEvent::Sample(h) => if s.listening {
            SubscriberView {
                listening: true,
                delivered: s.delivered.push(h@),
                reported: s.reported.push(h@),
            }
        } else {
            SubscriberView { delivered: s.delivered.push(h@), ..s }
        },
        SubscriberEvent::ReadFailure => SubscriberView { listening: false, ..s },
        SubscriberEvent::Status => s,
    }
}

/// The state after observing a whole sequence of events, first to last.
pub open spec fn subscriber_run(s: SubscriberView, events: Seq<SubscriberEvent>) -> SubscriberView
    decreases events.len(),
{
    if events.len() == 0 {
        s
    } else {
        subscriber_run(subscriber_step(s, events[0]), events.skip(1))
    }
}

/// Whether any of the events is a receive error.
pub open spec fn has_read_failure(events: Seq<SubscriberEvent>) -> bool {
    exists|i: int| 0 <= i < events.len() && events[i] is ReadFailure
}

/// State machine of the observing role. Entered once a reader handle exists;
/// listens until a receive error or process shutdown.
pub struct Subscriber {
    /// Still listening? False once a receive error arrived.
    pub listening: bool,
    /// Every heartbeat the service has delivered, in delivery order.
    pub delivered: Ghost<Seq<HeartbeatView>>,
    /// Every heartbeat reported, in report order.
    pub reported: Ghost<Seq<HeartbeatView>>,
}

impl View for Subscriber {
    type V = SubscriberView;

    open spec fn view(&self) -> SubscriberView {
        SubscriberView {
            listening: self.listening,
            delivered: self.delivered@,
            reported: self.reported@,
        }
    }
}

impl Subscriber {
    pub open spec fn wf(self) -> bool {
        self@.wf()
    }

    /// Enter the listening state with empty histories.
    pub fn new() -> (s: Subscriber)
        ensures
            s.wf(),
            s.listening,
            s.delivered@ =~= Seq::<HeartbeatView>::empty(),
            s.reported@ =~= Seq::<HeartbeatView>::empty(),
    {
        let s = Subscriber {
            listening: true,
            delivered: Ghost(Seq::empty()),
            reported: Ghost(Seq::empty()),
        };
        proof {
            assert(s@.reported =~= s@.delivered.take(s@.reported.len() as int));
        }
        s
    }

    /// One step of the observing loop, for whichever event source became
    /// ready first. A delivered heartbeat is reported at once, in delivery
    /// order; a receive error halts the loop for good; after the halt nothing
    /// is reported again.
    pub fn step(&mut self, e: SubscriberEvent) -> (a: SubscriberAction)
        requires
            old(self).wf(),
        ensures
            final(self).wf(),
            final(self)@ == subscriber_step(old(self)@, e),
            final(self).listening ==> old(self).listening,
            old(self).listening ==> (e matches SubscriberEvent::Sample(h) ==> (
            a matches SubscriberAction::Report(line) && line@ == text::received_line_of(h@))),
            (old(self).listening && e is ReadFailure) ==> a is Halt && !final(self).listening,
            (old(self).listening && e is Status) ==> a is ReportStatus && *final(self) == *old(
                self,
            ),
            !old(self).listening ==> final(self).reported@ == old(self).reported@ && a is Ignore,
    {
        match e {
            SubscriberEvent::Sample(h) => {
                if self.listening {
                    self.delivered = Ghost(self.delivered@.push(h@));
                    self.reported = Ghost(self.reported@.push(h@));
                    proof {
                        assert(final(self)@.reported =~= final(self)@.delivered.take(
                            final(self)@.reported.len() as int,
                        ));
                    }
                    SubscriberAction::Report(text::received_line(&h))
                } else {
                    self.delivered = Ghost(self.delivered@.push(h@));
                    proof {
                        assert(final(self)@.reported =~= final(self)@.delivered.take(
                            final(self)@.reported.len() as int,
                        ));
                    }
                    SubscriberAction::Ignore
                }
            },
            SubscriberEvent::ReadFailure => {
                let was_listening = self.listening;
                self.listening = false;
                if was_listening {
                    SubscriberAction::Halt
                } else {
                    SubscriberAction::Ignore
                }
            },
            SubscriberEvent::Status => {
                if self.listening {
                    SubscriberAction::ReportStatus
                } else {
                    SubscriberAction::Ignore
                }
            },
        }
    }
}

/// Each step keeps the state well formed and never erases or reorders what
/// was already delivered or reported.
pub proof fn lemma_subscriber_step_wf(s: SubscriberView, e: SubscriberEvent)
    requires
        s.wf(),
    ensures
        subscriber_step(s, e).wf(),
        subscriber_step(s, e).delivered.take(s.delivered.len() as int) == s.delivered,
        subscriber_step(s, e).reported.take(s.reported.len() as int) == s.reported,
        subscriber_step(s, e).listening ==> s.listening,
{
    let s1 = subscriber_step(s, e);
    assert(s1.delivered.take(s.delivered.len() as int) =~= s.delivered);
    assert(s1.reported.take(s.reported.len() as int) =~= s.reported);
    assert(s1.reported =~= s1.delivered.take(s1.reported.len() as int));
}

/// Messages are reported in exactly the order the service delivered them:
/// over any run, what was reported is a prefix of what was delivered, in the
/// same order — never reordered; and as long as no receive error arrived,
/// nothing delivered is missing from the reports.
pub proof fn lemma_subscriber_run_order(s: SubscriberView, events: Seq<SubscriberEvent>)
    requires
        s.wf(),
    ensures
        ({
            let r = subscriber_run(s, events);
            &&& r.wf()
            &&& r.reported == r.delivered.take(r.reported.len() as int)
            &&& (s.listening && !has_read_failure(events)) ==> (r.listening && r.reported
                == r.delivered)
        }),
    decreases events.len(),
{
    if events.len() > 0 {
        lemma_subscriber_step_wf(s, events[0]);
        lemma_subscriber_run_order(subscriber_step(s, events[0]), events.skip(1));
        if s.listening && !has_read_failure(events) {
            assert(!(events[0] is ReadFailure));
            assert forall|i: int|
                0 <= i < events.skip(1).len() implies !(events.skip(1)[i] is ReadFailure) by {
                assert(events.skip(1)[i] == events[i + 1]);
            }
        }
    }
}

/// A receive error halts reporting for good: from a halted state, no
/// sequence of further events adds a report, and the loop never listens
/// again.
pub proof fn lemma_halted_reports_nothing(s: SubscriberView, events: Seq<SubscriberEvent>)
    requires
        !s.listening,
    ensures
        subscriber_run(s, events).reported == s.reported,
        !subscriber_run(s, events).listening,
    decreases events.len(),
{
    if events.len() > 0 {
        lemma_halted_reports_nothing(subscriber_step(s, events[0]), events.skip(1));
    }
}

} // verus!

use vstd::prelude::*;
use crate::replica::ResponseType;

verus! {

/// The kind of a message that the client's reader receives from the relay.
#[derive(PartialEq, Eq, Structural, Debug, Clone, Copy)]
pub enum GateEvent {
    Update,
    Correct,
    Error,
}

/// The reader's gate on rejections. A rejection is handed to the publisher
/// only once an update has advanced the packet counter since the previous
/// rejection; until then it is held back, so that a retry never reuses a
/// stale packet id.
#[derive(PartialEq, Eq, Structural, Debug, Clone, Copy)]
pub struct ReaderGate {
    pub can_send_rejected: bool,
    pub defer_rejected: bool,
}

/// The reader gate after `e`.
pub open spec fn gate_next(g: ReaderGate, e: GateEvent) -> ReaderGate {
    match e {
        GateEvent::Update => if g.defer_rejected {
            ReaderGate { can_send_rejected: g.can_send_rejected, defer_rejected: false }
        } else {
            ReaderGate { can_send_rejected: true, defer_rejected: g.defer_rejected }
        },
        GateEvent::Correct => g,
        GateEvent::Error => if g.can_send_rejected {
            ReaderGate { can_send_rejected: false, defer_rejected: g.defer_rejected }
        } else {
            ReaderGate { can_send_rejected: g.can_send_rejected, defer_rejected: true }
        },
    }
}

/// What the reader gate puts in the mailbox on `e`, if anything.
pub open spec fn gate_output(g: ReaderGate, e: GateEvent) -> Option<ResponseType> {
    match e {
        GateEvent::Update => if g.defer_rejected {
            Some(ResponseType::Rejected)
        } else {
            None
        },
        GateEvent::Correct => Some(ResponseType::Accepted),
        GateEvent::Error => if g.can_send_rejected {
            Some(ResponseType::Rejected)
        } else {
            None
        },
    }
}

/// The reader gate after a sequence of events.
pub open spec fn gate_after(g: ReaderGate, events: Seq<GateEvent>) -> ReaderGate
    decreases events.len(),
{
    if events.len() == 0 {
        g
    } else {
        gate_next(gate_after(g, events.drop_last()), events.last())
    }
}

/// Whether the reader gate hands a rejection to the publisher on event `j`.
pub open spec fn rejects_at(g: ReaderGate, events: Seq<GateEvent>, j: int) -> bool {
    gate_output(gate_after(g, events.take(j)), events[j]) == Some(ResponseType::Rejected)
}

/// The states a gate can reach: a rejection is held back only while none
/// may be sent.
pub open spec fn gate_consistent(g: ReaderGate) -> bool {
    g.defer_rejected ==> !g.can_send_rejected
}

impl ReaderGate {
    /// A gate that lets the first rejection through.
    pub fn new() -> (r: ReaderGate)
        ensures
            r == (ReaderGate { can_send_rejected: true, defer_rejected: false }),
            gate_consistent(r),
    {
        ReaderGate { can_send_rejected: true, defer_rejected: false }
    }

    /// Steps the reader gate on a message from the relay and returns what goes in
    /// the mailbox.
    pub fn on_event(&mut self, event: GateEvent) -> (r: Option<ResponseType>)
        ensures
            *final(self) == gate_next(*old(self), event),
            r == gate_output(*old(self), event),
    {
        match event {
            GateEvent::Update => {
                if self.defer_rejected {
                    self.defer_rejected = false;
                    Some(ResponseType::Rejected)
                } else {
                    self.can_send_rejected = true;
                    None
                }
            },
            GateEvent::Correct => Some(ResponseType::Accepted),
            GateEvent::Error => {
                if self.can_send_rejected {
                    self.can_send_rejected = false;
                    Some(ResponseType::Rejected)
                } else {
                    self.defer_rejected = true;
                    None
                }
            },
        }
    }
}

proof fn lemma_after_step(g: ReaderGate, events: Seq<GateEvent>, m: int)
    requires
        0 <= m < events.len(),
    ensures
        gate_after(g, events.take(m + 1)) == gate_next(gate_after(g, events.take(m)), events[m]),
{
    assert(events.take(m + 1).drop_last() =~= events.take(m));
}

/// Every state that a consistent gate reaches is consistent.
pub proof fn lemma_gate_stays_consistent(g: ReaderGate, events: Seq<GateEvent>)
    requires
        gate_consistent(g),
    ensures
        gate_consistent(gate_after(g, events)),
    decreases events.len(),
{
    if events.len() > 0 {
        lemma_gate_stays_consistent(g, events.drop_last());
    }
}

proof fn lemma_blocked_until_update(g: ReaderGate, events: Seq<GateEvent>, i: int, m: int)
    requires
        gate_consistent(g),
        0 <= i < m <= events.len(),
        rejects_at(g, events, i),
        forall|k: int| i < k < m ==> events[k] != GateEvent::Update,
    ensures
        !gate_after(g, events.take(m)).can_send_rejected,
    decreases m - i,
{
    lemma_after_step(g, events, m - 1);
    if m - 1 == i {
        lemma_gate_stays_consistent(g, events.take(i));
    } else {
        lemma_blocked_until_update(g, events, i, m - 1);
    }
}

/// Between two rejections that the reader gate hands to the publisher, the reader
/// has handled at least one update: each retry sees a packet counter that
/// moved since the previous one.
pub proof fn lemma_rejections_separated_by_updates(
    g: ReaderGate,
    events: Seq<GateEvent>,
    i: int,
    j: int,
)
    requires
        gate_consistent(g),
        0 <= i < j < events.len(),
        rejects_at(g, events, i),
        rejects_at(g, events, j),
    ensures
        exists|k: int| i < k <= j && events[k] == GateEvent::Update,
{
    if forall|k: int| i < k <= j ==> events[k] != GateEvent::Update {
        lemma_blocked_until_update(g, events, i, j);
    }
}

} // verus!

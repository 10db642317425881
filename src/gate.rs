use vstd::prelude::*;
use crate::model::WifiError;

verus! {

/// One entry of a gate's history: a request/response cycle began or ended.
pub ghost enum CycleEvent {
    Started(u64),
    Ended(u64),
}

/// The state of the task gate in front of the worker.
#[derive(Clone, Copy, Debug, PartialEq, Eq, Structural)]
pub enum GateState {
    /// No cycle is in flight.
    Idle,
    /// The cycle with this ticket is in flight.
    Busy(u64),
    /// The worker can no longer be reached; every request fails at once.
    Closed,
}

/// The ticket of a history entry.
pub open spec fn event_ticket(e: CycleEvent) -> u64 {
    match e {
        CycleEvent::Started(t) => t,
        CycleEvent::Ended(t) => t,
    }
}

/// A history of cycles run one at a time: starts and ends alternate, each
/// end closes the cycle that the start just before it opened, and tickets
/// grow from one cycle to the next.
pub open spec fn serial_history(log: Seq<CycleEvent>) -> bool {
    &&& forall|i: int| 0 <= i < log.len() ==> (#[trigger] log[i] is Started <==> i % 2 == 0)
    &&& forall|i: int|
        0 < i < log.len() && i % 2 == 1 ==> event_ticket(#[trigger] log[i]) == event_ticket(
            log[i - 1],
        )
    &&& forall|i: int, j: int|
        0 <= i < j < log.len() && i % 2 == 0 && j % 2 == 0 ==> event_ticket(#[trigger] log[i])
            < event_ticket(#[trigger] log[j])
}

/// What became of a result that came back from the worker.
#[derive(Clone, Copy, Debug, PartialEq, Eq, Structural)]
pub enum Delivery {
    /// It was produced for the waiting caller, whose cycle is now over.
    Accepted,
    /// It belongs to an abandoned cycle and is dropped; the caller keeps
    /// waiting for its own result.
    Discarded,
}

/// Guards the single-slot channel pair to the worker: a caller holds a
/// ticket from `begin` until its result is delivered, the cycle fails, or
/// the caller abandons it, and no other cycle can begin meanwhile. A result
/// is handed only to the ticket it was produced for; the result of an
/// abandoned cycle is dropped when it arrives.
pub struct TaskGate {
    state: GateState,
    next_ticket: u64,
    history: Ghost<Seq<CycleEvent>>,
}

impl TaskGate {
    pub closed spec fn view_state(&self) -> GateState {
        self.state
    }

    /// The cycles that went through, in order.
    pub closed spec fn log(&self) -> Seq<CycleEvent> {
        self.history@
    }

    /// The number of tickets handed out so far; the next one is this number.
    pub closed spec fn issued(&self) -> nat {
        self.next_ticket as nat
    }

    /// Whether a ticket is left for another cycle.
    pub open spec fn tickets_left(&self) -> bool {
        self.issued() < u64::MAX
    }

    pub closed spec fn wf(&self) -> bool {
        &&& serial_history(self.history@)
        &&& (self.state is Busy <==> self.history@.len() % 2 == 1)
        &&& forall|i: int|
            0 <= i < self.history@.len() ==> event_ticket(#[trigger] self.history@[i])
                < self.next_ticket
        &&& (self.state is Busy ==> self.state->Busy_0 == event_ticket(
            self.history@.last(),
        ))
    }

    pub fn new() -> (g: TaskGate)
        ensures
            g.wf(),
            g.view_state() == GateState::Idle,
            g.log() == Seq::<CycleEvent>::empty(),
            g.issued() == 0,
    {
        TaskGate { state: GateState::Idle, next_ticket: 0, history: Ghost(Seq::empty()) }
    }

    pub fn state(&self) -> (r: GateState)
        ensures
            r == self.view_state(),
    {
        self.state
    }

    /// Opens a cycle and returns its ticket. An idle gate with a ticket left
    /// always opens one. A closed gate fails at once; so does a gate whose
    /// cycle is still in flight, or whose tickets are spent.
    pub fn begin(&mut self) -> (r: Result<u64, WifiError>)
        requires
            old(self).wf(),
        ensures
            final(self).wf(),
            old(self).view_state() is Idle && old(self).tickets_left() ==> r is Ok,
            match r {
                Ok(t) => {
                    &&& old(self).view_state() is Idle
                    &&& final(self).view_state() == GateState::Busy(t)
                    &&& final(self).log() == old(self).log().push(CycleEvent::Started(t))
                    &&& t == old(self).issued()
                    &&& final(self).issued() == t + 1
                },
                Err(e) => e == WifiError::BridgeSendFailed && *final(self) == *old(self),
            },
    {
        match self.state {
            GateState::Idle => {
                if self.next_ticket == u64::MAX {
                    return Err(WifiError::BridgeSendFailed);
                }
                let t = self.next_ticket;
                self.state = GateState::Busy(t);
                self.next_ticket = t + 1;
                self.history = Ghost(self.history@.push(CycleEvent::Started(t)));
                Ok(t)
            },
            _ => Err(WifiError::BridgeSendFailed),
        }
    }

    /// The task of cycle `ticket` could not be handed to the worker: the
    /// cycle ends and the task gate closes.
    pub fn abort(&mut self, ticket: u64) -> (e: WifiError)
        requires
            old(self).wf(),
        ensures
            final(self).wf(),
            final(self).issued() == old(self).issued(),
            e == WifiError::BridgeSendFailed,
            old(self).view_state() == GateState::Busy(ticket) ==> final(self).view_state()
                == GateState::Closed && final(self).log() == old(self).log().push(
                CycleEvent::Ended(ticket),
            ),
            old(self).view_state() != GateState::Busy(ticket) ==> *final(self) == *old(self),
    {
        if self.state == GateState::Busy(ticket) {
            self.state = GateState::Closed;
            self.history = Ghost(self.history@.push(CycleEvent::Ended(ticket)));
        }
        WifiError::BridgeSendFailed
    }

    /// The caller of cycle `ticket` gave up waiting. Its task may still run
    /// to completion on the worker; the cycle ends here and the next caller
    /// is served, while the late result is dropped when it arrives.
    pub fn abandon(&mut self, ticket: u64)
        requires
            old(self).wf(),
        ensures
            final(self).wf(),
            final(self).issued() == old(self).issued(),
            old(self).view_state() == GateState::Busy(ticket) ==> final(self).view_state()
                == GateState::Idle && final(self).log() == old(self).log().push(
                CycleEvent::Ended(ticket),
            ),
            old(self).view_state() != GateState::Busy(ticket) ==> *final(self) == *old(self),
    {
        if self.state == GateState::Busy(ticket) {
            self.state = GateState::Idle;
            self.history = Ghost(self.history@.push(CycleEvent::Ended(ticket)));
        }
    }

    /// Takes what came back from the worker while cycle `ticket` waits:
    /// `tag` is the ticket that the result was produced for, or `None` when
    /// nothing came back. The result belongs to the caller only when the tags
    /// agree; a result of an earlier cycle is discarded and the cycle keeps
    /// waiting; any other outcome ends the cycle and closes the task gate.
    pub fn deliver(&mut self, ticket: u64, tag: Option<u64>) -> (r: Result<Delivery, WifiError>)
        requires
            old(self).wf(),
        ensures
            final(self).wf(),
            final(self).issued() == old(self).issued(),
            old(self).view_state() == GateState::Busy(ticket) ==> match tag {
                Some(t) => if t == ticket {
                    &&& r == Ok::<Delivery, WifiError>(Delivery::Accepted)
                    &&& final(self).view_state() == GateState::Idle
                    &&& final(self).log() == old(self).log().push(CycleEvent::Ended(ticket))
                } else if t < ticket {
                    r == Ok::<Delivery, WifiError>(Delivery::Discarded) && *final(self)
                        == *old(self)
                } else {
                    &&& r == Err::<Delivery, WifiError>(WifiError::ResultTypeMismatch)
                    &&& final(self).view_state() == GateState::Closed
                    &&& final(self).log() == old(self).log().push(CycleEvent::Ended(ticket))
                },
                None => {
                    &&& r == Err::<Delivery, WifiError>(WifiError::BridgeReceiveFailed)
                    &&& final(self).view_state() == GateState::Closed
                    &&& final(self).log() == old(self).log().push(CycleEvent::Ended(ticket))
                },
            },
            old(self).view_state() != GateState::Busy(ticket) ==> r == Err::<
                Delivery,
                WifiError,
            >(WifiError::ResultTypeMismatch) && *final(self) == *old(self),
    {
        if self.state != GateState::Busy(ticket) {
            return Err(WifiError::ResultTypeMismatch);
        }
        match tag {
            Some(t) => if t == ticket {
                self.state = GateState::Idle;
                self.history = Ghost(self.history@.push(CycleEvent::Ended(ticket)));
                Ok(Delivery::Accepted)
            } else if t < ticket {
                Ok(Delivery::Discarded)
            } else {
                self.state = GateState::Closed;
                self.history = Ghost(self.history@.push(CycleEvent::Ended(ticket)));
                Err(WifiError::ResultTypeMismatch)
            },
            None => {
                self.state = GateState::Closed;
                self.history = Ghost(self.history@.push(CycleEvent::Ended(ticket)));
                Err(WifiError::BridgeReceiveFailed)
            },
        }
    }
}

/// However many callers go through a task gate, the worker sees their cycles
/// strictly one at a time: each start is followed by the end of that same
/// cycle before any other cycle starts.
pub proof fn lemma_cycles_never_overlap(g: TaskGate)
    requires
        g.wf(),
    ensures
        forall|i: int|
            0 <= i < g.log().len() && #[trigger] g.log()[i] is Started ==> (i + 1 < g.log().len()
                ==> g.log()[i + 1] == CycleEvent::Ended(event_ticket(g.log()[i]))),
{
    assert forall|i: int|
        0 <= i < g.log().len() && #[trigger] g.log()[i] is Started implies (i + 1
        < g.log().len() ==> g.log()[i + 1] == CycleEvent::Ended(event_ticket(g.log()[i]))) by {
        if i + 1 < g.log().len() {
            assert(i % 2 == 0);
            assert((i + 1) % 2 == 1);
            assert(!(g.log()[i + 1] is Started));
            assert(event_ticket(g.log()[i + 1]) == event_ticket(g.log()[i]));
        }
    }
}

/// Each cycle has a ticket of its own, and a result ends only the cycle
/// whose ticket it carries: no caller receives another caller's result.
pub proof fn lemma_tickets_distinct(g: TaskGate)
    requires
        g.wf(),
    ensures
        forall|i: int, j: int|
            0 <= i < j < g.log().len() && #[trigger] g.log()[i] is Started
                && #[trigger] g.log()[j] is Started ==> event_ticket(g.log()[i])
                != event_ticket(g.log()[j]),
{
    assert forall|i: int, j: int|
        0 <= i < j < g.log().len() && #[trigger] g.log()[i] is Started
            && #[trigger] g.log()[j] is Started implies event_ticket(g.log()[i]) != event_ticket(
        g.log()[j],
    ) by {
        assert(i % 2 == 0 && j % 2 == 0);
    }
}

} // verus!

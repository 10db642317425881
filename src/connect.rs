use vstd::prelude::*;
use crate::manager::connection_outcome;
use crate::model::{ConnectionState, Credentials, WifiError};

verus! {

/// Where a connect attempt stands. The attempt runs on the worker that owns
/// the network service; each phase waits for the report of one request.
#[derive(Clone, Copy, Debug, PartialEq, Eq)]
pub enum ConnectPhase {
    Idle,
    DeletingStale,
    LocatingDevice,
    Connecting,
    CleaningUp(WifiError),
    Finished(Result<(), WifiError>),
}

/// What the service reported for the last request.
#[derive(Clone, Copy, Debug, PartialEq, Eq)]
pub enum ConnectEvent {
    /// The attempt is started.
    Begin,
    /// The profile deletion was carried out (or there was nothing to delete).
    ProfileDeleted,
    /// The device lookup ended: whether a wireless device was found.
    DeviceLocated(bool),
    /// The connect request ended with a state, or was refused by the service.
    ConnectReported(Result<ConnectionState, WifiError>),
}

/// The request that the worker must make next.
#[derive(Clone, Copy, Debug, PartialEq, Eq)]
pub enum ConnectAction {
    /// Delete the saved profile for the target network, if there is one.
    DeleteProfile,
    /// Locate the wireless-capable device.
    LocateDevice,
    /// Join the target network with the session's credentials.
    Connect,
    /// The attempt is over, with this outcome.
    Finish(Result<(), WifiError>),
}

/// One step of a connect attempt: the phase after `event`, and the request
/// to make. An event that the phase does not await ends the attempt with a
/// mismatch.
pub open spec fn connect_transition(phase: ConnectPhase, event: ConnectEvent) -> (
    ConnectPhase,
    ConnectAction,
) {
    match (phase, event) {
        (ConnectPhase::Idle, ConnectEvent::Begin) => (
            ConnectPhase::DeletingStale,
            ConnectAction::DeleteProfile,
        ),
        (ConnectPhase::DeletingStale, ConnectEvent::ProfileDeleted) => (
            ConnectPhase::LocatingDevice,
            ConnectAction::LocateDevice,
        ),
        (ConnectPhase::LocatingDevice, ConnectEvent::DeviceLocated(found)) => if found {
            (ConnectPhase::Connecting, ConnectAction::Connect)
        } else {
            (
                ConnectPhase::Finished(Err(WifiError::ResourceUnavailable)),
                ConnectAction::Finish(Err(WifiError::ResourceUnavailable)),
            )
        },
        (ConnectPhase::Connecting, ConnectEvent::ConnectReported(report)) => match report {
            Ok(state) => if state.is_failure() {
                (ConnectPhase::CleaningUp(WifiError::ConnectFailed), ConnectAction::DeleteProfile)
            } else {
                (ConnectPhase::Finished(Ok(())), ConnectAction::Finish(Ok(())))
            },
            Err(e) => (ConnectPhase::CleaningUp(e), ConnectAction::DeleteProfile),
        },
        (ConnectPhase::CleaningUp(e), ConnectEvent::ProfileDeleted) => (
            ConnectPhase::Finished(Err(e)),
            ConnectAction::Finish(Err(e)),
        ),
        (ConnectPhase::Finished(outcome), _) => (
            ConnectPhase::Finished(outcome),
            ConnectAction::Finish(outcome),
        ),
        _ => (
            ConnectPhase::Finished(Err(WifiError::ResultTypeMismatch)),
            ConnectAction::Finish(Err(WifiError::ResultTypeMismatch)),
        ),
    }
}

/// A connect attempt for one network: delete any stale profile, locate the
/// device, join, and delete the new profile again when the join fails.
/// The credentials are built before the session exists, so no request is
/// made for an attempt whose credentials are incomplete.
pub struct ConnectSession {
    pub ssid: String,
    pub credentials: Credentials,
    pub phase: ConnectPhase,
}

impl ConnectSession {
    pub fn new(ssid: String, credentials: Credentials) -> (s: ConnectSession)
        ensures
            s.ssid == ssid,
            s.credentials == credentials,
            s.phase == ConnectPhase::Idle,
    {
        ConnectSession { ssid, credentials, phase: ConnectPhase::Idle }
    }

    /// Takes the report of the last request and returns the next one.
    pub fn step(&mut self, event: ConnectEvent) -> (a: ConnectAction)
        ensures
            (final(self).phase, a) == connect_transition(old(self).phase, event),
            final(self).ssid == old(self).ssid,
            final(self).credentials == old(self).credentials,
    {
        let (phase, action) = match (self.phase, event) {
            (ConnectPhase::Idle, ConnectEvent::Begin) => (
                ConnectPhase::DeletingStale,
                ConnectAction::DeleteProfile,
            ),
            (ConnectPhase::DeletingStale, ConnectEvent::ProfileDeleted) => (
                ConnectPhase::LocatingDevice,
                ConnectAction::LocateDevice,
            ),
            (ConnectPhase::LocatingDevice, ConnectEvent::DeviceLocated(found)) => if found {
                (ConnectPhase::Connecting, ConnectAction::Connect)
            } else {
                (
                    ConnectPhase::Finished(Err(WifiError::ResourceUnavailable)),
                    ConnectAction::Finish(Err(WifiError::ResourceUnavailable)),
                )
            },
            (ConnectPhase::Connecting, ConnectEvent::ConnectReported(report)) => match report {
                Ok(state) => match connection_outcome(state) {
                    Err(e) => (ConnectPhase::CleaningUp(e), ConnectAction::DeleteProfile),
                    Ok(()) => (ConnectPhase::Finished(Ok(())), ConnectAction::Finish(Ok(()))),
                },
                Err(e) => (ConnectPhase::CleaningUp(e), ConnectAction::DeleteProfile),
            },
            (ConnectPhase::CleaningUp(e), ConnectEvent::ProfileDeleted) => (
                ConnectPhase::Finished(Err(e)),
                ConnectAction::Finish(Err(e)),
            ),
            (ConnectPhase::Finished(outcome), _) => (
                ConnectPhase::Finished(outcome),
                ConnectAction::Finish(outcome),
            ),
            _ => (
                ConnectPhase::Finished(Err(WifiError::ResultTypeMismatch)),
                ConnectAction::Finish(Err(WifiError::ResultTypeMismatch)),
            ),
        };
        self.phase = phase;
        action
    }

    /// Whether the attempt is over.
    pub fn is_finished(&self) -> (r: bool)
        ensures
            r == (self.phase is Finished),
    {
        match self.phase {
            ConnectPhase::Finished(_) => true,
            _ => false,
        }
    }
}

/// The actions that a run of events draws from a phase, in order.
pub open spec fn connect_actions(phase: ConnectPhase, events: Seq<ConnectEvent>) -> Seq<
    ConnectAction,
>
    decreases events.len(),
{
    if events.len() == 0 {
        Seq::empty()
    } else {
        let (next, action) = connect_transition(phase, events[0]);
        seq![action].add(connect_actions(next, events.drop_first()))
    }
}

/// A join that ends in an unknown, deactivated or deactivating state is
/// followed by the deletion of the profile it made, and the attempt then
/// fails with `ConnectFailed`.
pub proof fn lemma_failed_join_deletes_profile(state: ConnectionState)
    requires
        state.is_failure(),
    ensures
        connect_actions(
            ConnectPhase::Connecting,
            seq![ConnectEvent::ConnectReported(Ok(state)), ConnectEvent::ProfileDeleted],
        ) == seq![
            ConnectAction::DeleteProfile,
            ConnectAction::Finish(Err(WifiError::ConnectFailed)),
        ],
{
    let events = seq![ConnectEvent::ConnectReported(Ok(state)), ConnectEvent::ProfileDeleted];
    assert(events.drop_first() =~= seq![ConnectEvent::ProfileDeleted]);
    assert(events.drop_first().drop_first() =~= Seq::<ConnectEvent>::empty());
    reveal_with_fuel(connect_actions, 3);
    assert(connect_actions(
        ConnectPhase::Connecting,
        events,
    ) =~= seq![
        ConnectAction::DeleteProfile,
        ConnectAction::Finish(Err(WifiError::ConnectFailed)),
    ]);
}

/// An attempt on a present device whose join activates, or starts to,
/// makes exactly these requests: delete the stale profile, locate the
/// device, join, and then succeeds.
pub proof fn lemma_successful_attempt(state: ConnectionState)
    requires
        !state.is_failure(),
    ensures
        connect_actions(
            ConnectPhase::Idle,
            seq![
                ConnectEvent::Begin,
                ConnectEvent::ProfileDeleted,
                ConnectEvent::DeviceLocated(true),
                ConnectEvent::ConnectReported(Ok(state)),
            ],
        ) == seq![
            ConnectAction::DeleteProfile,
            ConnectAction::LocateDevice,
            ConnectAction::Connect,
            ConnectAction::Finish(Ok(())),
        ],
{
    let e = seq![
        ConnectEvent::Begin,
        ConnectEvent::ProfileDeleted,
        ConnectEvent::DeviceLocated(true),
        ConnectEvent::ConnectReported(Ok(state)),
    ];
    assert(e.drop_first() =~= e.subrange(1, 4));
    assert(e.drop_first().drop_first() =~= e.subrange(2, 4));
    assert(e.drop_first().drop_first().drop_first() =~= e.subrange(3, 4));
    assert(e.drop_first().drop_first().drop_first().drop_first() =~= Seq::<ConnectEvent>::empty());
    reveal_with_fuel(connect_actions, 5);
    assert(connect_actions(ConnectPhase::Idle, e) =~= seq![
        ConnectAction::DeleteProfile,
        ConnectAction::LocateDevice,
        ConnectAction::Connect,
        ConnectAction::Finish(Ok(())),
    ]);
}

} // verus!

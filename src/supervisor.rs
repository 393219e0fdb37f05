//! Life cycle of one room's socket: connect, run the pumps, reconnect after a
//! transport failure with backoff, or close for good.
//!
//! The supervisor decides; its caller performs each action (open the socket,
//! spawn the pumps, sleep, publish a close request) and reports back the event.

use vstd::prelude::*;
use crate::backoff::{backoff_delay, lemma_backoff_bounds, Backoff};

verus! {

/// Connection state of a room. `Reconnecting` carries the time, in
/// milliseconds, at which the next attempt is due.
#[derive(Clone, Copy, Debug, PartialEq, Eq, Structural)]
pub enum ConnectionState {
    Disconnected,
    Connecting,
    Connected,
    Reconnecting(u64),
    Closed,
}

/// Why a pump stopped.
#[derive(Clone, Copy, Debug, PartialEq, Eq, Structural)]
pub enum PumpEnd {
    /// The socket failed to read or write.
    TransportError,
    /// The pump saw or sent a close request.
    CloseSeen,
}

/// What happened to the room since the last step.
#[derive(Clone, Copy, Debug, PartialEq, Eq, Structural)]
pub enum SupervisorEvent {
    /// A join was requested.
    Join,
    /// The socket handshake succeeded.
    HandshakeOk,
    /// The socket handshake failed.
    HandshakeFailed,
    /// One of the pumps stopped.
    PumpEnded(PumpEnd),
    /// The backoff delay has passed.
    BackoffElapsed,
    /// The user asked to leave the room.
    Leave,
}

/// What the caller is to do next.
#[derive(Clone, Copy, Debug, PartialEq, Eq, Structural)]
pub enum SupervisorAction {
    /// Open the room's socket.
    Connect,
    /// Start the ingress and egress pumps on the open socket and record them.
    SpawnPumps,
    /// Wait this many milliseconds, then report `BackoffElapsed`.
    Sleep(u64),
    /// Publish a close request on the room's bus.
    SendClose,
    /// Stop supervising: the room is closed.
    Exit,
    /// Nothing to do.
    Nothing,
}

/// Time at which a wait of `delay` milliseconds started at `now` ends.
pub open spec fn deadline(now: u64, delay: nat) -> u64 {
    if now + delay > u64::MAX {
        u64::MAX
    } else {
        (now + delay) as u64
    }
}

/// The state, count of consecutive failures and action that follow `ev` in
/// `state` at time `now`.
pub open spec fn transition(
    state: ConnectionState,
    failures: nat,
    ev: SupervisorEvent,
    now: u64,
) -> (ConnectionState, nat, SupervisorAction) {
    let retry = (
        ConnectionState::Reconnecting(deadline(now, backoff_delay(failures))),
        failures + 1,
        SupervisorAction::Sleep(backoff_delay(failures) as u64),
    );
    match (state, ev) {
        (ConnectionState::Closed, _) => (state, failures, SupervisorAction::Nothing),
        (ConnectionState::Disconnected, SupervisorEvent::Join) => (
            ConnectionState::Connecting,
            failures,
            SupervisorAction::Connect,
        ),
        (ConnectionState::Connecting, SupervisorEvent::HandshakeOk) => (
            ConnectionState::Connected,
            0,
            SupervisorAction::SpawnPumps,
        ),
        (ConnectionState::Connecting, SupervisorEvent::HandshakeFailed) => retry,
        (
            ConnectionState::Connected,
            SupervisorEvent::PumpEnded(PumpEnd::TransportError),
        ) => retry,
        (ConnectionState::Connected, SupervisorEvent::PumpEnded(PumpEnd::CloseSeen)) => (
            ConnectionState::Closed,
            failures,
            SupervisorAction::Exit,
        ),
        (ConnectionState::Reconnecting(_), SupervisorEvent::BackoffElapsed) => (
            ConnectionState::Connecting,
            failures,
            SupervisorAction::Connect,
        ),
        (ConnectionState::Connected, SupervisorEvent::Leave) => (
            state,
            failures,
            SupervisorAction::SendClose,
        ),
        (_, SupervisorEvent::Leave) => (ConnectionState::Closed, failures, SupervisorAction::Exit),
        _ => (state, failures, SupervisorAction::Nothing),
    }
}

/// Supervisor of one room.
pub struct Supervisor {
    state: ConnectionState,
    backoff: Backoff,
}

impl Supervisor {
    pub closed spec fn state_spec(&self) -> ConnectionState {
        self.state
    }

    /// Consecutive failed attempts since the last successful connection.
    pub closed spec fn failures(&self) -> nat {
        self.backoff.failures()
    }

    pub closed spec fn wf(&self) -> bool {
        self.backoff.wf()
    }

    pub fn new() -> (r: Supervisor)
        ensures
            r.wf(),
            r.state_spec() == ConnectionState::Disconnected,
            r.failures() == 0,
    {
        Supervisor { state: ConnectionState::Disconnected, backoff: Backoff::new() }
    }

    pub fn state(&self) -> (r: ConnectionState)
        ensures
            r == self.state_spec(),
    {
        self.state
    }

    /// Delay that the next failure will bring, in milliseconds.
    pub fn next_delay(&self) -> (r: u64)
        requires
            self.wf(),
        ensures
            r == backoff_delay(self.failures()),
    {
        self.backoff.next_delay()
    }

    /// Takes `ev`, reported at time `now_ms`, and says what to do next.
    pub fn step(&mut self, ev: SupervisorEvent, now_ms: u64) -> (a: SupervisorAction)
        requires
            old(self).wf(),
        ensures
            final(self).wf(),
            (final(self).state_spec(), final(self).failures(), a) == transition(
                old(self).state_spec(),
                old(self).failures(),
                ev,
                now_ms,
            ),
    {
        proof {
            lemma_backoff_bounds(self.backoff.failures());
        }
        match (self.state, ev) {
            (ConnectionState::Closed, _) => SupervisorAction::Nothing,
            (ConnectionState::Disconnected, SupervisorEvent::Join) => {
                self.state = ConnectionState::Connecting;
                SupervisorAction::Connect
            },
            (ConnectionState::Connecting, SupervisorEvent::HandshakeOk) => {
                self.backoff.on_success();
                self.state = ConnectionState::Connected;
                SupervisorAction::SpawnPumps
            },
            (ConnectionState::Connecting, SupervisorEvent::HandshakeFailed)
            | (
                ConnectionState::Connected,
                SupervisorEvent::PumpEnded(PumpEnd::TransportError),
            ) => {
                let delay = self.backoff.on_failure();
                let due = if now_ms > u64::MAX - delay {
                    u64::MAX
                } else {
                    now_ms + delay
                };
                self.state = ConnectionState::Reconnecting(due);
                SupervisorAction::Sleep(delay)
            },
            (ConnectionState::Connected, SupervisorEvent::PumpEnded(PumpEnd::CloseSeen)) => {
                self.state = ConnectionState::Closed;
                SupervisorAction::Exit
            },
            (ConnectionState::Reconnecting(_), SupervisorEvent::BackoffElapsed) => {
                self.state = ConnectionState::Connecting;
                SupervisorAction::Connect
            },
            (ConnectionState::Connected, SupervisorEvent::Leave) => SupervisorAction::SendClose,
            (_, SupervisorEvent::Leave) => {
                self.state = ConnectionState::Closed;
                SupervisorAction::Exit
            },
            _ => SupervisorAction::Nothing,
        }
    }
}

} // verus!

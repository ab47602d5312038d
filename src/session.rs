//! The relay session: the liveness and session handshake run against a remote
//! emulation host, and the supervisor that decides when to forward input and
//! when to retry. The I/O is done by the caller, which performs each action
//! and reports what happened as an event.
use vstd::prelude::*;

use crate::backoff::{failure_step, PolicyModel, ReconnectPolicy};

verus! {

/// Number of `Ping`s sent before waiting for a `Pong`.
pub const PING_COUNT: u8 = 8;

/// Pause after each `Ping`, in milliseconds.
pub const PING_SPACING_MS: u64 = 250;

/// Bound on each read while waiting for a `Pong`, in milliseconds.
pub const PONG_WAIT_MS: u64 = 5000;

/// Bound on the whole wait for an `Ack` after `Enter`, in milliseconds.
pub const ACK_WAIT_MS: u64 = 5000;

/// Bound on opening the secured channel, in milliseconds.
pub const CONNECT_TIMEOUT_MS: u64 = 10000;

/// Edge of the remote screen at which the cursor enters.
#[derive(Clone, Copy, Debug, PartialEq, Eq, Structural)]
pub enum Position {
    Left,
    Right,
    Top,
    Bottom,
}

/// A message of the wire protocol, as the handshake reads it.
#[derive(Clone, Copy, Debug, PartialEq, Eq, Structural)]
pub enum Message {
    Ping,
    Pong(bool),
    Enter(Position),
    Ack(u32),
    Leave(u32),
    Input,
}

/// Why a connection attempt failed.
#[derive(Clone, Copy, Debug, PartialEq, Eq, Structural)]
pub enum ConnectError {
    /// Opening the channel, a send or a receive failed.
    Transport,
    /// No `Pong` arrived within the per-read bound.
    NoPong,
    /// The remote answered `Pong(false)`: its emulation is disabled, so
    /// retrying is futile until that changes.
    EmulationDisabled,
    /// No `Ack` arrived within the bound after `Enter`.
    NoAck,
}

/// Progress of one handshake.
#[derive(Clone, Copy, Debug, PartialEq, Eq, Structural)]
pub enum Handshake {
    /// `sent` pings have gone out.
    Pinging { sent: u8 },
    /// Waiting for a `Pong`.
    AwaitingPong,
    /// The remote is alive; `Enter` is to be sent.
    Entering,
    /// `Enter` went out; waiting for an `Ack`.
    AwaitingAck,
    /// The session is usable.
    Established,
    /// The attempt failed.
    Failed(ConnectError),
}

/// What happened when the caller performed the last action.
#[derive(Clone, Copy, Debug, PartialEq, Eq, Structural)]
pub enum HandshakeEvent {
    /// A `Ping` went out and the spacing pause elapsed.
    PingSent,
    /// `Enter` went out.
    EnterSent,
    /// A message arrived.
    Received(Message),
    /// The bounded wait elapsed with no message.
    TimedOut,
    /// A send or receive failed.
    TransportFailed,
}

/// What the caller is to do next.
#[derive(Clone, Copy, Debug, PartialEq, Eq, Structural)]
pub enum HandshakeAction {
    /// Send `Ping`, then pause `then_wait_ms`.
    SendPing { then_wait_ms: u64 },
    /// Receive one message, waiting at most `within_ms` for it.
    ReceivePong { within_ms: u64 },
    /// Send `Enter` at the given edge.
    SendEnter(Position),
    /// Receive one message; the wait for an `Ack` is bounded by `within_ms`
    /// counted from when `Enter` went out.
    ReceiveAck { within_ms: u64 },
    /// The handshake is over and the session is usable.
    FinishConnected,
    /// The handshake is over and the attempt failed.
    FinishFailed(ConnectError),
}

/// The action that a non-final state asks for, and the outcome of a final one.
pub open spec fn action_of(s: Handshake) -> HandshakeAction {
    match s {
        Handshake::Pinging { .. } => HandshakeAction::SendPing { then_wait_ms: PING_SPACING_MS },
        Handshake::AwaitingPong => HandshakeAction::ReceivePong { within_ms: PONG_WAIT_MS },
        Handshake::Entering => HandshakeAction::SendEnter(Position::Right),
        Handshake::AwaitingAck => HandshakeAction::ReceiveAck { within_ms: ACK_WAIT_MS },
        Handshake::Established => HandshakeAction::FinishConnected,
        Handshake::Failed(e) => HandshakeAction::FinishFailed(e),
    }
}

/// The state that follows `s` on event `e`. Final states never change; a
/// transport failure ends any other state; an event that a state does not
/// wait for leaves it as it is.
pub open spec fn next_state(s: Handshake, e: HandshakeEvent) -> Handshake {
    match s {
        Handshake::Established | Handshake::Failed(_) => s,
        _ => match e {
            HandshakeEvent::TransportFailed => Handshake::Failed(ConnectError::Transport),
            _ => match s {
                Handshake::Pinging { sent } => match e {
                    HandshakeEvent::PingSent => if sent < PING_COUNT - 1 {
                        Handshake::Pinging { sent: (sent + 1) as u8 }
                    } else {
                        Handshake::AwaitingPong
                    },
                    _ => s,
                },
                Handshake::AwaitingPong => match e {
                    HandshakeEvent::Received(Message::Pong(true)) => Handshake::Entering,
                    HandshakeEvent::Received(Message::Pong(false)) => Handshake::Failed(
                        ConnectError::EmulationDisabled,
                    ),
                    HandshakeEvent::TimedOut => Handshake::Failed(ConnectError::NoPong),
                    _ => s,
                },
                Handshake::Entering => match e {
                    HandshakeEvent::EnterSent => Handshake::AwaitingAck,
                    _ => s,
                },
                Handshake::AwaitingAck => match e {
                    HandshakeEvent::Received(Message::Ack(_)) => Handshake::Established,
                    HandshakeEvent::TimedOut => Handshake::Failed(ConnectError::NoAck),
                    _ => s,
                },
                _ => s,
            },
        },
    }
}

/// The state after a sequence of events.
pub open spec fn run_handshake(s: Handshake, evs: Seq<HandshakeEvent>) -> Handshake
    decreases evs.len(),
{
    if evs.len() == 0 {
        s
    } else {
        next_state(run_handshake(s, evs.drop_last()), evs.last())
    }
}

/// Whether a state lies before the `Enter` message in the protocol.
pub open spec fn before_enter(s: Handshake) -> bool {
    s is Pinging || s is AwaitingPong
}

impl Handshake {
    /// A fresh handshake, and its first action: send the first `Ping`.
    pub fn start() -> (r: (Handshake, HandshakeAction))
        ensures
            r.0 == (Handshake::Pinging { sent: 0 }),
            r.1 == action_of(r.0),
    {
        let s = Handshake::Pinging { sent: 0 };
        (s, HandshakeAction::SendPing { then_wait_ms: PING_SPACING_MS })
    }

    /// The next state on event `e`, with the action that it asks for.
    pub fn step(self, e: HandshakeEvent) -> (r: (Handshake, HandshakeAction))
        ensures
            r.0 == next_state(self, e),
            r.1 == action_of(r.0),
    {
        let next = match self {
            Handshake::Established | Handshake::Failed(_) => self,
            _ => match e {
                HandshakeEvent::TransportFailed => Handshake::Failed(ConnectError::Transport),
                _ => match self {
                    Handshake::Pinging { sent } => match e {
                        HandshakeEvent::PingSent => if sent < PING_COUNT - 1 {
                            Handshake::Pinging { sent: sent + 1 }
                        } else {
                            Handshake::AwaitingPong
                        },
                        _ => self,
                    },
                    Handshake::AwaitingPong => match e {
                        HandshakeEvent::Received(Message::Pong(true)) => Handshake::Entering,
                        HandshakeEvent::Received(Message::Pong(false)) => Handshake::Failed(
                            ConnectError::EmulationDisabled,
                        ),
                        HandshakeEvent::TimedOut => Handshake::Failed(ConnectError::NoPong),
                        _ => self,
                    },
                    Handshake::Entering => match e {
                        HandshakeEvent::EnterSent => Handshake::AwaitingAck,
                        _ => self,
                    },
                    Handshake::AwaitingAck => match e {
                        HandshakeEvent::Received(Message::Ack(_)) => Handshake::Established,
                        HandshakeEvent::TimedOut => Handshake::Failed(ConnectError::NoAck),
                        _ => self,
                    },
                    _ => self,
                },
            },
        };
        (next, next.action())
    }

    /// The action that this state asks for.
    pub fn action(self) -> (r: HandshakeAction)
        ensures
            r == action_of(self),
    {
        match self {
            Handshake::Pinging { .. } => HandshakeAction::SendPing { then_wait_ms: PING_SPACING_MS },
            Handshake::AwaitingPong => HandshakeAction::ReceivePong { within_ms: PONG_WAIT_MS },
            Handshake::Entering => HandshakeAction::SendEnter(Position::Right),
            Handshake::AwaitingAck => HandshakeAction::ReceiveAck { within_ms: ACK_WAIT_MS },
            Handshake::Established => HandshakeAction::FinishConnected,
            Handshake::Failed(e) => HandshakeAction::FinishFailed(e),
        }
    }
}

/// A `Pong(false)` received while waiting for a `Pong` ends the handshake
/// with the distinct "emulation disabled" error, and whatever happens after,
/// the handshake stays there and never asks to send `Enter`.
pub proof fn lemma_pong_false_never_enters(evs: Seq<HandshakeEvent>)
    ensures
        next_state(Handshake::AwaitingPong, HandshakeEvent::Received(Message::Pong(false)))
            == Handshake::Failed(ConnectError::EmulationDisabled),
        run_handshake(Handshake::Failed(ConnectError::EmulationDisabled), evs) == Handshake::Failed(
            ConnectError::EmulationDisabled,
        ),
        forall|i: int|
            0 <= i <= evs.len() ==> action_of(
                #[trigger] run_handshake(
                    Handshake::Failed(ConnectError::EmulationDisabled),
                    evs.subrange(0, i),
                ),
            ) == HandshakeAction::FinishFailed(ConnectError::EmulationDisabled),
        ConnectError::EmulationDisabled != ConnectError::NoPong,
        ConnectError::EmulationDisabled != ConnectError::Transport,
    decreases evs.len(),
{
    assert forall|i: int| 0 <= i <= evs.len() implies run_handshake(
        Handshake::Failed(ConnectError::EmulationDisabled),
        #[trigger] evs.subrange(0, i),
    ) == Handshake::Failed(ConnectError::EmulationDisabled) by {
        lemma_failed_is_final(ConnectError::EmulationDisabled, evs.subrange(0, i));
    }
    lemma_failed_is_final(ConnectError::EmulationDisabled, evs);
}

/// A failed handshake stays failed with the same error.
pub proof fn lemma_failed_is_final(err: ConnectError, evs: Seq<HandshakeEvent>)
    ensures
        run_handshake(Handshake::Failed(err), evs) == Handshake::Failed(err),
    decreases evs.len(),
{
    if evs.len() > 0 {
        lemma_failed_is_final(err, evs.drop_last());
    }
}

/// From the start, the handshake is still pinging or waiting for a `Pong`,
/// or has failed, unless a `Pong(true)` was among the events: it never gets
/// to sending `Enter` without one.
pub proof fn lemma_no_enter_before_pong(evs: Seq<HandshakeEvent>)
    ensures
        before_enter(run_handshake(Handshake::Pinging { sent: 0 }, evs)) || (exists|i: int|
            0 <= i < evs.len() && evs[i] == HandshakeEvent::Received(Message::Pong(true)))
            || run_handshake(Handshake::Pinging { sent: 0 }, evs) is Failed,
    decreases evs.len(),
{
    if evs.len() > 0 {
        let init = evs.drop_last();
        lemma_no_enter_before_pong(init);
        let prev = run_handshake(Handshake::Pinging { sent: 0 }, init);
        if exists|i: int| 0 <= i < init.len() && init[i] == HandshakeEvent::Received(Message::Pong(true)) {
            let i = choose|i: int| 0 <= i < init.len() && init[i] == HandshakeEvent::Received(Message::Pong(true));
            assert(evs[i] == init[i]);
        } else if prev is Failed {
            lemma_failed_is_final(prev->Failed_0, seq![evs.last()]);
            assert(seq![evs.last()].drop_last() =~= Seq::<HandshakeEvent>::empty());
        } else if evs.last() == HandshakeEvent::Received(Message::Pong(true)) {
            assert(evs[evs.len() - 1] == evs.last());
        }
    }
}

/// With `Enter` sent, a wait for the `Ack` that runs out ends the handshake
/// with a timeout error, and the supervisor that hears of it stays
/// disconnected.
pub proof fn lemma_missing_ack_times_out(sup: SupervisorModel)
    ensures
        next_state(Handshake::AwaitingAck, HandshakeEvent::TimedOut) == Handshake::Failed(
            ConnectError::NoAck,
        ),
        action_of(next_state(Handshake::AwaitingAck, HandshakeEvent::TimedOut))
            == HandshakeAction::FinishFailed(ConnectError::NoAck),
        !attempt_finished(sup, Err(ConnectError::NoAck)).connected,
{
}

/// Notifications from the connection manager to its owner.
pub enum ConnectionEvent {
    Connected,
    Disconnected(String),
    SendError(String),
}

/// Abstract value of a [`Supervisor`].
pub ghost struct SupervisorModel {
    pub connected: bool,
    pub retry_in_ms: Option<nat>,
    pub policy: PolicyModel,
}

/// The supervisor after an attempt ended with `result`: connected, with the
/// delay reset and no retry pending, or disconnected with a retry scheduled
/// after the doubled delay.
pub open spec fn attempt_finished(s: SupervisorModel, result: Result<(), ConnectError>) -> SupervisorModel {
    match result {
        Ok(()) => SupervisorModel {
            connected: true,
            retry_in_ms: None,
            policy: PolicyModel { current: s.policy.base, ..s.policy },
        },
        Err(_) => SupervisorModel {
            connected: false,
            retry_in_ms: Some(failure_step(s.policy).current),
            policy: failure_step(s.policy),
        },
    }
}

/// Owner-side decisions of the relay: whether input is forwarded, and when
/// the next connection attempt is due.
pub struct Supervisor {
    connected: bool,
    retry_in_ms: Option<u64>,
    policy: ReconnectPolicy,
}

impl View for Supervisor {
    type V = SupervisorModel;

    closed spec fn view(&self) -> SupervisorModel {
        SupervisorModel {
            connected: self.connected,
            retry_in_ms: match self.retry_in_ms {
                Some(d) => Some(d as nat),
                None => None,
            },
            policy: self.policy@,
        }
    }
}

impl Supervisor {
    /// A disconnected supervisor with the given delays and no retry pending.
    pub fn new(base_delay_ms: u64, max_delay_ms: u64) -> (r: Supervisor)
        ensures
            !r@.connected,
            r@.retry_in_ms is None,
            r@.policy == (PolicyModel { current: base_delay_ms as nat, base: base_delay_ms as nat, max: max_delay_ms as nat }),
    {
        Supervisor {
            connected: false,
            retry_in_ms: None,
            policy: ReconnectPolicy::new(base_delay_ms, max_delay_ms),
        }
    }

    /// Whether input events are forwarded now; while disconnected they are
    /// dropped, not queued.
    pub fn forwards_input(&self) -> (r: bool)
        ensures
            r == self@.connected,
    {
        self.connected
    }

    /// Delay after which the next attempt is due, if one is scheduled.
    pub fn retry_in_ms(&self) -> (r: Option<u64>)
        ensures
            r is Some <==> self@.retry_in_ms is Some,
            r matches Some(d) ==> self@.retry_in_ms == Some(d as nat),
    {
        self.retry_in_ms
    }

    /// A connection attempt (handshake included) ended with `result`.
    pub fn on_attempt_finished(&mut self, result: Result<(), ConnectError>)
        ensures
            final(self)@ == attempt_finished(old(self)@, result),
    {
        match result {
            Ok(()) => {
                self.connected = true;
                self.retry_in_ms = None;
                self.policy.on_success();
            },
            Err(_) => {
                self.connected = false;
                let d = self.policy.on_failure();
                self.retry_in_ms = Some(d);
            },
        }
    }

    /// An established session broke (a send or receive failed): input stops
    /// being forwarded and a retry is scheduled after the current delay.
    pub fn on_session_lost(&mut self)
        ensures
            !final(self)@.connected,
            final(self)@.policy == old(self)@.policy,
            final(self)@.retry_in_ms == Some(old(self)@.policy.current),
    {
        self.connected = false;
        self.retry_in_ms = Some(self.policy.current_delay_ms());
    }

    /// A notification from the connection manager.
    pub fn on_connection_event(&mut self, event: &ConnectionEvent)
        ensures
            event is Connected ==> final(self)@ == attempt_finished(old(self)@, Ok(())),
            event is Disconnected ==> {
                &&& !final(self)@.connected
                &&& final(self)@.policy == old(self)@.policy
                &&& final(self)@.retry_in_ms == Some(old(self)@.policy.current)
            },
            event is SendError ==> final(self)@ == old(self)@,
    {
        match event {
            ConnectionEvent::Connected => self.on_attempt_finished(Ok(())),
            ConnectionEvent::Disconnected(_) => self.on_session_lost(),
            ConnectionEvent::SendError(_) => {},
        }
    }
}

} // verus!

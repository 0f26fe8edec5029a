//! The hole-punching engine: when to send a probe, how long to wait for the
//! peer's, and how the punch ends.
//!
//! Each peer's router lets a datagram in only once the peer itself has sent
//! one to the same endpoint, so both peers keep sending until one arrives.
//! The engine decides; its driver owns the socket, sends and receives, and
//! tells the engine what happened.

use vstd::prelude::*;

use crate::addr::{IpAddress, PublicEndpoint};
use crate::client::session::{PunchError, PunchResult};
use crate::TIMEOUT;

verus! {

/// The time between two probes.
pub const PUNCH_INTERVAL: u64 = 300;

/// The most probes that one punch sends.
pub const MAX_PROBES: u64 = 34;

/// The probe: the five bytes of the word "punch".
pub open spec fn probe() -> Seq<u8> {
    seq![0x70u8, 0x75u8, 0x6eu8, 0x63u8, 0x68u8]
}

/// The payload of a probe. A receiver does not look at it.
pub fn punch_packet() -> (r: Vec<u8>)
    ensures
        r@ == probe(),
{
    let mut packet: Vec<u8> = Vec::new();
    packet.push(0x70);
    packet.push(0x75);
    packet.push(0x6e);
    packet.push(0x63);
    packet.push(0x68);
    assert(packet@ =~= probe());
    packet
}

/// The address to bind to when any will do: `0.0.0.0` with a port that the
/// system picks.
pub open spec fn any_endpoint() -> PublicEndpoint {
    PublicEndpoint { ip: IpAddress::V4(0, 0, 0, 0), port: 0 }
}

/// What the driver tells the engine.
#[derive(Clone, Copy, Debug, PartialEq, Eq, Structural)]
pub enum PunchEvent {
    /// Time has passed: the engine is asked what is due.
    Tick,
    /// A datagram arrived from the target, whatever it holds.
    Received,
    /// A probe could not be sent. The next one is sent when it is due.
    SendFailed,
    /// The socket could not be bound or connected, or receiving failed.
    SocketFailed,
}

/// What the engine tells the driver to do.
#[derive(Clone, Copy, Debug, PartialEq, Eq, Structural)]
pub enum PunchAction {
    /// Send a probe to the target, then come back at `until` or when a
    /// datagram arrives.
    Send { until: u64 },
    /// Come back at `until` or when a datagram arrives.
    Wait { until: u64 },
    /// The punch is over; release the socket unless it succeeded.
    Done(PunchResult),
}

/// What a [`PunchEngine`] holds.
pub struct PunchState {
    /// The endpoint punched toward.
    pub target: PublicEndpoint,
    /// The local endpoint that the socket is bound to.
    pub bind: PublicEndpoint,
    /// When the punch began.
    pub started: u64,
    /// The latest time that the engine has been told, counted from the start.
    pub elapsed: u64,
    /// When the next probe is due, counted from the start.
    pub next_send: u64,
    /// How many probes the engine has ordered.
    pub sent: u64,
    /// How the punch ended, once it has.
    pub outcome: Option<PunchResult>,
}

/// The time `offset` after `started`, or the end of time.
pub open spec fn at(started: u64, offset: u64) -> u64 {
    if started + offset <= u64::MAX {
        (started + offset) as u64
    } else {
        u64::MAX
    }
}

impl PunchState {
    /// A punch that begins at `now`.
    pub open spec fn begin(target: PublicEndpoint, bind: PublicEndpoint, now: u64) -> PunchState {
        PunchState { target, bind, started: now, elapsed: 0, next_send: 0, sent: 0, outcome: None }
    }

    /// Probes are at least [`PUNCH_INTERVAL`] apart and none is sent once
    /// [`TIMEOUT`] has passed.
    pub open spec fn wf(self) -> bool {
        &&& self.sent * PUNCH_INTERVAL <= self.next_send
        &&& self.next_send < TIMEOUT + PUNCH_INTERVAL
        &&& self.sent == 0 ==> self.next_send == 0
    }

    /// The time that has passed since the start when the clock reads `now`;
    /// it never moves back.
    pub open spec fn elapsed_at(self, now: u64) -> u64 {
        if now - self.started > self.elapsed {
            (now - self.started) as u64
        } else {
            self.elapsed
        }
    }

    /// When the driver is to come back while nothing arrives: when the next
    /// probe is due or the punch times out, whichever comes first.
    pub open spec fn wake(self) -> u64 {
        if self.next_send < TIMEOUT {
            at(self.started, self.next_send)
        } else {
            at(self.started, TIMEOUT)
        }
    }

    /// The punch after the driver reports `event` at `now`, and what the
    /// driver is to do.
    pub open spec fn step(self, event: PunchEvent, now: u64) -> (PunchState, PunchAction) {
        if self.outcome is Some {
            (self, PunchAction::Done(self.outcome->0))
        } else {
            let elapsed = self.elapsed_at(now);
            let s = PunchState { elapsed, ..self };
            match event {
                PunchEvent::SocketFailed => (
                    PunchState { outcome: Some(PunchResult::Failure(PunchError::Socket)), ..s },
                    PunchAction::Done(PunchResult::Failure(PunchError::Socket)),
                ),
                PunchEvent::Received => (
                    PunchState { outcome: Some(PunchResult::Success), ..s },
                    PunchAction::Done(PunchResult::Success),
                ),
                PunchEvent::Tick | PunchEvent::SendFailed => if elapsed >= TIMEOUT {
                    (
                        PunchState { outcome: Some(PunchResult::Failure(PunchError::Timeout)), ..s },
                        PunchAction::Done(PunchResult::Failure(PunchError::Timeout)),
                    )
                } else if event is Tick && elapsed >= self.next_send {
                    let t = PunchState {
                        next_send: (elapsed + PUNCH_INTERVAL) as u64,
                        sent: (self.sent + 1) as u64,
                        ..s
                    };
                    (t, PunchAction::Send { until: t.wake() })
                } else {
                    (s, PunchAction::Wait { until: s.wake() })
                },
            }
        }
    }

    /// The punch after it is cancelled: over, unless it was over already.
    pub open spec fn cancel(self) -> PunchState {
        if self.outcome is Some {
            self
        } else {
            PunchState { outcome: Some(PunchResult::Failure(PunchError::Cancelled)), ..self }
        }
    }
}

/// One punch toward one endpoint.
#[derive(Debug)]
pub struct PunchEngine {
    target: PublicEndpoint,
    bind: PublicEndpoint,
    started: u64,
    elapsed: u64,
    next_send: u64,
    sent: u64,
    outcome: Option<PunchResult>,
}

impl View for PunchEngine {
    type V = PunchState;

    closed spec fn view(&self) -> PunchState {
        PunchState {
            target: self.target,
            bind: self.bind,
            started: self.started,
            elapsed: self.elapsed,
            next_send: self.next_send,
            sent: self.sent,
            outcome: self.outcome,
        }
    }
}

/// Begins a punch toward `target_addr` from a socket bound to `bind_addr`,
/// which must be the endpoint that the server has registered for the
/// session. The driver binds the socket, connects it to the target, and asks
/// the engine what is due.
pub fn punch_nat(target_addr: PublicEndpoint, bind_addr: PublicEndpoint, now: u64) -> (r:
    PunchEngine)
    ensures
        r@ == PunchState::begin(target_addr, bind_addr, now),
        r@.wf(),
{
    PunchEngine {
        target: target_addr,
        bind: bind_addr,
        started: now,
        elapsed: 0,
        next_send: 0,
        sent: 0,
        outcome: None,
    }
}

/// Begins a punch toward `addr` from a socket bound to any address.
pub fn punch(addr: PublicEndpoint, now: u64) -> (r: PunchEngine)
    ensures
        r@ == PunchState::begin(addr, any_endpoint(), now),
        r@.wf(),
{
    punch_nat(addr, PublicEndpoint { ip: IpAddress::V4(0, 0, 0, 0), port: 0 }, now)
}

impl PunchEngine {
    pub fn target(&self) -> (r: PublicEndpoint)
        ensures
            r == self@.target,
    {
        self.target
    }

    pub fn bind_addr(&self) -> (r: PublicEndpoint)
        ensures
            r == self@.bind,
    {
        self.bind
    }

    /// How many probes the engine has ordered.
    pub fn sent(&self) -> (r: u64)
        ensures
            r == self@.sent,
    {
        self.sent
    }

    /// How the punch ended, once it has.
    pub fn outcome(&self) -> (r: Option<PunchResult>)
        ensures
            r == self@.outcome,
    {
        self.outcome
    }

    fn wake(&self) -> (r: u64)
        ensures
            r == self@.wake(),
    {
        if self.next_send < TIMEOUT {
            self.started.saturating_add(self.next_send)
        } else {
            self.started.saturating_add(TIMEOUT)
        }
    }

    /// Takes in what the driver reports at `now` and says what it is to do.
    pub fn step(&mut self, event: PunchEvent, now: u64) -> (r: PunchAction)
        requires
            old(self)@.wf(),
        ensures
            final(self)@ == old(self)@.step(event, now).0,
            r == old(self)@.step(event, now).1,
            final(self)@.wf(),
    {
        match self.outcome {
            Some(outcome) => { return PunchAction::Done(outcome); },
            None => {},
        }
        if now > self.started && now - self.started > self.elapsed {
            self.elapsed = now - self.started;
        }
        match event {
            PunchEvent::SocketFailed => {
                self.outcome = Some(PunchResult::Failure(PunchError::Socket));
                PunchAction::Done(PunchResult::Failure(PunchError::Socket))
            },
            PunchEvent::Received => {
                self.outcome = Some(PunchResult::Success);
                PunchAction::Done(PunchResult::Success)
            },
            PunchEvent::Tick | PunchEvent::SendFailed => {
                if self.elapsed >= TIMEOUT {
                    self.outcome = Some(PunchResult::Failure(PunchError::Timeout));
                    PunchAction::Done(PunchResult::Failure(PunchError::Timeout))
                } else if event == PunchEvent::Tick && self.elapsed >= self.next_send {
                    self.next_send = self.elapsed + PUNCH_INTERVAL;
                    self.sent = self.sent + 1;
                    PunchAction::Send { until: self.wake() }
                } else {
                    PunchAction::Wait { until: self.wake() }
                }
            },
        }
    }

    /// Cancels the punch: from now on the engine orders nothing.
    pub fn cancel(&mut self)
        requires
            old(self)@.wf(),
        ensures
            final(self)@ == old(self)@.cancel(),
            final(self)@.wf(),
    {
        if self.outcome.is_none() {
            self.outcome = Some(PunchResult::Failure(PunchError::Cancelled));
        }
    }
}

/// A punch sends at most [`MAX_PROBES`] probes.
pub proof fn law_probes_are_bounded(s: PunchState)
    requires
        s.wf(),
    ensures
        s.sent <= MAX_PROBES,
{
}

/// Every step keeps the probes apart and bounded.
pub proof fn law_step_keeps_order(s: PunchState, event: PunchEvent, now: u64)
    requires
        s.wf(),
    ensures
        s.step(event, now).0.wf(),
        s.cancel().wf(),
{
}

/// After a probe, none is ordered before [`PUNCH_INTERVAL`] has passed.
pub proof fn law_probes_are_spaced(
    s: PunchState,
    now: u64,
    event: PunchEvent,
    later: u64,
)
    requires
        s.wf(),
        s.step(PunchEvent::Tick, now).1 is Send,
        later - now < PUNCH_INTERVAL,
    ensures
        !(s.step(PunchEvent::Tick, now).0.step(event, later).1 is Send),
{
}

/// A punch that is over stays over: whatever the driver reports, the engine
/// answers with the same end and orders nothing.
pub proof fn law_finished_stays_finished(s: PunchState, event: PunchEvent, now: u64)
    requires
        s.outcome is Some,
    ensures
        s.step(event, now) == (s, PunchAction::Done(s.outcome->0)),
        s.cancel() == s,
{
}

/// A cancelled punch orders nothing more.
pub proof fn law_cancelled_orders_nothing(s: PunchState, event: PunchEvent, now: u64)
    ensures
        s.cancel().step(event, now).1 is Done,
        s.cancel().step(event, now).0 == s.cancel(),
{
}

/// While the punch runs, a datagram from the peer ends it with success, and
/// once the bound has passed the next tick ends it with a timeout.
pub proof fn law_punch_ends(s: PunchState, now: u64)
    requires
        s.outcome is None,
    ensures
        s.step(PunchEvent::Received, now).1 == PunchAction::Done(PunchResult::Success),
        now - s.started >= TIMEOUT ==> s.step(PunchEvent::Tick, now).1 == PunchAction::Done(
            PunchResult::Failure(PunchError::Timeout),
        ),
        now - s.started < TIMEOUT && s.elapsed < TIMEOUT ==> !(s.step(PunchEvent::Tick, now).1 is Done),
{
}

/// The first thing a punch does is send a probe.
pub proof fn law_punch_begins_with_probe(target: PublicEndpoint, bind: PublicEndpoint, now: u64)
    ensures
        PunchState::begin(target, bind, now).step(PunchEvent::Tick, now).1 is Send,
{
}

/// Two peers that punch toward each other each begin with a probe, and each
/// ends with success as soon as the other's probe reaches it, whenever that
/// is.
pub proof fn law_mutual_punch_succeeds(
    a: PublicEndpoint,
    b: PublicEndpoint,
    start_a: u64,
    start_b: u64,
    arrival_at_a: u64,
    arrival_at_b: u64,
)
    ensures
        PunchState::begin(b, a, start_a).step(PunchEvent::Tick, start_a).1 is Send,
        PunchState::begin(a, b, start_b).step(PunchEvent::Tick, start_b).1 is Send,
        PunchState::begin(b, a, start_a).step(PunchEvent::Tick, start_a).0.step(
            PunchEvent::Received,
            arrival_at_a,
        ).1 == PunchAction::Done(PunchResult::Success),
        PunchState::begin(a, b, start_b).step(PunchEvent::Tick, start_b).0.step(
            PunchEvent::Received,
            arrival_at_b,
        ).1 == PunchAction::Done(PunchResult::Success),
{
}

} // verus!

//! The dispatcher of a session's stream: it hands out keepalives and orders
//! until it is stopped, and nothing after that.

use vstd::prelude::*;

use crate::addr::{endpoint_of, AddrError, PublicEndpoint};
use crate::client::engine::{punch_nat, PunchEngine, PunchState};
use crate::client::session::{
    dispatch, handle_stream, keepalive, keepalive_after, next_keepalive, parse_addr, Action,
    ActionView, ServerEvent,
};
use crate::proto::{ClientStreamMessage, Proxy, Punch};

verus! {

/// Why an order was not carried out.
#[derive(Clone, Copy, Debug, PartialEq, Eq, Structural)]
pub enum OrderError {
    /// The order is of a kind that is reserved: there is no relay.
    Unimplemented,
}

/// What a [`StreamHandler`] holds.
pub struct StreamHandlerState {
    /// The local endpoint from which the session punches: the one that the
    /// server has registered for it.
    pub bind_addr: PublicEndpoint,
    /// Whether the handler has been stopped.
    pub stopped: bool,
}

/// The dispatcher of one session's stream.
#[derive(Debug)]
pub struct StreamHandler {
    bind_addr: PublicEndpoint,
    stopped: bool,
}

impl View for StreamHandler {
    type V = StreamHandlerState;

    closed spec fn view(&self) -> StreamHandlerState {
        StreamHandlerState { bind_addr: self.bind_addr, stopped: self.stopped }
    }
}

impl StreamHandler {
    /// A handler that runs, for a session that punches from `bind_addr`.
    pub fn new(bind_addr: PublicEndpoint) -> (r: Self)
        ensures
            r@ == (StreamHandlerState { bind_addr, stopped: false }),
    {
        Self { bind_addr, stopped: false }
    }

    /// Stops the handler for good.
    pub fn stop(&mut self)
        ensures
            final(self)@ == (StreamHandlerState { stopped: true, ..old(self)@ }),
    {
        self.stopped = true;
    }

    pub fn is_stopped(&self) -> (r: bool)
        ensures
            r == self@.stopped,
    {
        self.stopped
    }

    /// The keepalive that is due at `now` and the time at which the next one
    /// is due; nothing once the handler is stopped.
    pub fn keepalive(&self, now: u64) -> (r: Option<(ClientStreamMessage, u64)>)
        ensures
            match r {
                Some((message, next)) => !self@.stopped && message@ is None && next
                    == keepalive_after(now),
                None => self@.stopped,
            },
    {
        if self.stopped {
            None
        } else {
            Some((keepalive(), next_keepalive(now)))
        }
    }

    /// What an order from the server leads to; once the handler is stopped,
    /// to nothing but stopping.
    pub fn handle_order(&self, order: ServerEvent) -> (r: Action)
        ensures
            r@ == if self@.stopped {
                ActionView::Stop
            } else {
                dispatch(order)
            },
    {
        if self.stopped {
            Action::Stop
        } else {
            handle_stream(order)
        }
    }

    /// Begins the punch that an order asks for, from the session's own
    /// endpoint.
    pub fn punch(&self, order: Punch, now: u64) -> (r: Result<PunchEngine, AddrError>)
        ensures
            match endpoint_of(order.ip@, order.port) {
                Ok(target) => r is Ok && r->Ok_0@ == PunchState::begin(
                    target,
                    self@.bind_addr,
                    now,
                ) && r->Ok_0@.wf(),
                Err(e) => r is Err && r->Err_0 == e,
            },
    {
        match parse_addr(order.ip.as_str(), order.port) {
            Ok(target) => Ok(punch_nat(target, self.bind_addr, now)),
            Err(e) => Err(e),
        }
    }

    /// The place of the relay fallback: there is none, so the order is
    /// refused.
    pub fn proxy(&self, order: Proxy) -> (r: Result<(), OrderError>)
        ensures
            r == Err::<(), OrderError>(OrderError::Unimplemented),
    {
        Err(OrderError::Unimplemented)
    }
}

} // verus!

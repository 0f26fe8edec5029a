//! One client's state on the server.

use vstd::prelude::*;

use crate::addr::PublicEndpoint;
use crate::id::{fresh_id, is_v4, SessionId};
use crate::server::listing::{ListingState, RustListing};

verus! {

/// What a [`Session`] holds.
pub struct SessionState {
    pub id: SessionId,
    pub addr: PublicEndpoint,
    pub listing: Option<ListingState>,
    pub last_seen: u64,
}

/// Whether a session last seen at `last_seen` has been silent for longer than
/// `timeout` when the clock reads `now`.
pub open spec fn timed_out(last_seen: u64, now: u64, timeout: u64) -> bool {
    now - last_seen > timeout
}

/// A session: its identifier, the public endpoint of its client, the listing
/// it owns if any, and when its client was last heard from.
#[derive(Clone, Debug)]
pub struct Session {
    listing: Option<RustListing>,
    id: SessionId,
    addr: PublicEndpoint,
    last_seen: u64,
}

impl View for Session {
    type V = SessionState;

    closed spec fn view(&self) -> SessionState {
        SessionState {
            id: self.id,
            addr: self.addr,
            listing: match self.listing {
                Some(l) => Some(l@),
                None => None,
            },
            last_seen: self.last_seen,
        }
    }
}

impl Session {
    /// How long a session may stay silent before it counts as timed out,
    /// unless the server is set up with another bound.
    pub const TIMEOUT_TIME: u64 = 60_000;

    /// A session without a listing, under a freshly minted identifier, last
    /// seen at `now`.
    pub fn new(addr: PublicEndpoint, now: u64) -> (r: Self)
        ensures
            is_v4(r@.id),
            r@ == (SessionState { id: r@.id, addr, listing: None, last_seen: now }),
    {
        Self::with_id(fresh_id(), addr, now)
    }

    /// A session without a listing, under the identifier given, last seen at
    /// `now`.
    pub fn with_id(id: SessionId, addr: PublicEndpoint, now: u64) -> (r: Self)
        ensures
            r@ == (SessionState { id, addr, listing: None, last_seen: now }),
    {
        Self { listing: None, id, addr, last_seen: now }
    }

    pub fn id(&self) -> (r: &SessionId)
        ensures
            *r == self@.id,
    {
        &self.id
    }

    pub fn addr(&self) -> (r: &PublicEndpoint)
        ensures
            *r == self@.addr,
    {
        &self.addr
    }

    pub fn listing(&self) -> (r: &Option<RustListing>)
        ensures
            match *r {
                Some(l) => self@.listing == Some(l@),
                None => self@.listing is None,
            },
    {
        &self.listing
    }

    pub fn last_seen(&self) -> (r: u64)
        ensures
            r == self@.last_seen,
    {
        self.last_seen
    }

    /// Sets the time at which the client was last heard from.
    pub fn set_last_seen(&mut self, t: u64)
        ensures
            final(self)@ == (SessionState { last_seen: t, ..old(self)@ }),
    {
        self.last_seen = t;
    }

    /// Records that the client was heard from at `now`. The time recorded
    /// never moves back.
    pub fn see(&mut self, now: u64)
        ensures
            final(self)@ == (SessionState {
                last_seen: if now > old(self)@.last_seen {
                    now
                } else {
                    old(self)@.last_seen
                },
                ..old(self)@
            }),
    {
        if now > self.last_seen {
            self.last_seen = now;
        }
    }

    /// Gives the session a listing, or takes its listing away.
    pub fn set_listing(&mut self, listing: Option<RustListing>)
        ensures
            final(self)@ == (SessionState {
                listing: match listing {
                    Some(l) => Some(l@),
                    None => None,
                },
                ..old(self)@
            }),
    {
        self.listing = listing;
    }

    /// Whether the session has been silent for longer than `timeout`.
    pub fn is_timed_out_after(&self, now: u64, timeout: u64) -> (r: bool)
        ensures
            r == timed_out(self@.last_seen, now, timeout),
    {
        now > self.last_seen && now - self.last_seen > timeout
    }

    /// Whether the session has been silent for longer than
    /// [`Session::TIMEOUT_TIME`].
    pub fn is_timed_out(&self, now: u64) -> (r: bool)
        ensures
            r == timed_out(self@.last_seen, now, Session::TIMEOUT_TIME),
    {
        self.is_timed_out_after(now, Self::TIMEOUT_TIME)
    }

    /// Whether the session is still live at `now`.
    pub fn is_valid(&self, now: u64) -> (r: bool)
        ensures
            r == !timed_out(self@.last_seen, now, Session::TIMEOUT_TIME),
    {
        !self.is_timed_out(now)
    }
}

} // verus!

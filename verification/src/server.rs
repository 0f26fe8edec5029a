//! The rendezvous server: its session registry and listing directory.

use std::collections::HashMap;
use vstd::prelude::*;
use vstd::std_specs::hash::spec_keys_iter;
use vstd::std_specs::iter::IteratorSpec;

pub mod join;
pub mod laws;
pub mod listing;
pub mod session;
pub mod state;
pub mod stream;

use crate::addr::PublicEndpoint;
use crate::id::{fresh_id, id_from_bytes, id_of, id_to_bytes, ListingId, SessionId};
use crate::proto::{
    AddListingRequest, AddListingResponse, EndSessionRequest, EndSessionResponse,
    name_of, GetListingsRequest, GetListingsResponse, JoinRequest, Listing as TonicListing,
    ListingNoId as TonicListingNoId, RemoveListingRequest, RemoveListingResponse,
};
use listing::{is_wire_form, RustListing, RustListingNoId};
use session::Session;
use state::{Rejection, ServerState, MAX_NAME_BYTES};

verus! {

broadcast use vstd::std_specs::hash::group_hash_axioms;

/// The registry of the rendezvous server.
pub struct PuncherServer {
    sessions: HashMap<SessionId, Session>,
    id_map: HashMap<ListingId, SessionId>,
    session_timeout: u64,
}

impl View for PuncherServer {
    type V = ServerState;

    closed spec fn view(&self) -> ServerState {
        ServerState {
            sessions: self.sessions@.map_values(|s: Session| s@),
            id_map: self.id_map@,
            session_timeout: self.session_timeout,
        }
    }
}

impl Default for PuncherServer {
    /// A server without sessions, with the timeout [`Session::TIMEOUT_TIME`].
    fn default() -> (r: Self)
        ensures
            r@ == ServerState::init(Session::TIMEOUT_TIME),
            r@.wf(),
    {
        Self::with_session_timeout(Session::TIMEOUT_TIME)
    }
}

impl PuncherServer {
    /// A server without sessions, on which a session times out after
    /// `session_timeout` of silence.
    pub fn with_session_timeout(session_timeout: u64) -> (r: Self)
        ensures
            r@ == ServerState::init(session_timeout),
            r@.wf(),
    {
        let r = Self { sessions: HashMap::new(), id_map: HashMap::new(), session_timeout };
        assert(r@.sessions =~= Map::empty());
        r
    }

    /// The timeout after which a silent session is removed.
    pub fn session_timeout(&self) -> (r: u64)
        ensures
            r == self@.session_timeout,
    {
        self.session_timeout
    }

    /// The number of live sessions.
    pub fn session_count(&self) -> (r: usize)
        requires
            self@.wf(),
        ensures
            r == self@.sessions.dom().len(),
    {
        assert(self@.sessions.dom() =~= self.sessions@.dom());
        self.sessions.len()
    }

    /// The session with the identifier given, if there is one.
    pub fn get(&self, session_id: &SessionId) -> (r: Option<&Session>)
        ensures
            match r {
                Some(s) => self@.sessions.contains_key(*session_id) && s@
                    == self@.sessions[*session_id],
                None => !self@.sessions.contains_key(*session_id),
            },
    {
        self.sessions.get(session_id)
    }

    /// The session that owns the listing with the identifier given, if there
    /// is such a listing.
    pub fn owner_of(&self, listing_id: &ListingId) -> (r: Option<SessionId>)
        ensures
            match r {
                Some(owner) => self@.id_map.contains_key(*listing_id) && owner
                    == self@.id_map[*listing_id],
                None => !self@.id_map.contains_key(*listing_id),
            },
    {
        match self.id_map.get(listing_id) {
            Some(owner) => Some(*owner),
            None => None,
        }
    }

    /// Removes a session and its listing. Removing a session that does not
    /// exist changes nothing.
    pub fn cleanup(&mut self, session_id: &SessionId)
        requires
            old(self)@.wf(),
        ensures
            final(self)@ == old(self)@.end(*session_id),
            final(self)@.wf(),
    {
        proof {
            self@.lemma_remove_deep_wf(set![*session_id]);
        }
        match self.sessions.remove(session_id) {
            Some(session) => {
                proof {
                    old(self)@.lemma_end(*session_id);
                }
                assert(self@.sessions =~= old(self)@.sessions.remove(*session_id));
                match session.listing() {
                    Some(listing) => {
                        self.id_map.remove(listing.id());
                    },
                    None => {},
                }
            },
            None => {
                proof {
                    old(self)@.lemma_remove_deep_nothing(set![*session_id]);
                }
                assert(self@.sessions =~= old(self)@.sessions);
            },
        }
    }

    /// Removes each of the sessions named, with its listing.
    pub fn remove_deep(&mut self, session_ids: &[SessionId])
        requires
            old(self)@.wf(),
        ensures
            final(self)@ == old(self)@.remove_deep(session_ids@.to_set()),
            final(self)@.wf(),
    {
        let mut i: usize = 0;
        proof {
            assert(session_ids@.take(0).to_set() =~= Set::<SessionId>::empty());
            self@.lemma_remove_deep_nothing(Set::empty());
        }
        while i < session_ids.len()
            invariant
                i <= session_ids.len(),
                self@.wf(),
                self@ == old(self)@.remove_deep(session_ids@.take(i as int).to_set()),
            decreases session_ids.len() - i,
        {
            self.cleanup(&session_ids[i]);
            proof {
                let done = session_ids@.take(i as int).to_set();
                old(self)@.lemma_remove_deep_twice(done, set![session_ids@[i as int]]);
                assert(session_ids@.take(i + 1) =~= session_ids@.take(i as int).push(
                    session_ids@[i as int],
                ));
                session_ids@.take(i as int).lemma_push_to_set_commute(session_ids@[i as int]);
                assert(session_ids@.take(i + 1).to_set() =~= done.union(
                    set![session_ids@[i as int]],
                ));
            }
            i += 1;
        }
        assert(session_ids@.take(session_ids.len() as int) =~= session_ids@);
    }

    /// Resolves a session for a request made at `now`. A session that has
    /// timed out is removed and refused.
    pub fn validate(&mut self, session_id: &SessionId, now: u64) -> (r: Result<(), Rejection>)
        requires
            old(self)@.wf(),
        ensures
            final(self)@ == old(self)@.validate(*session_id, now).0,
            r == old(self)@.validate(*session_id, now).1,
            final(self)@.wf(),
    {
        proof {
            self@.lemma_validate_wf(*session_id, now);
        }
        let expired = match self.sessions.get(session_id) {
            None => { return Err(Rejection::SessionNotFound); },
            Some(session) => session.is_timed_out_after(now, self.session_timeout),
        };
        if expired {
            self.cleanup(session_id);
            Err(Rejection::SessionExpired)
        } else {
            Ok(())
        }
    }

    /// Registers a session under the identifier given. An identifier that
    /// is already in use is refused and nothing changes.
    pub fn insert_session(&mut self, session_id: SessionId, addr: PublicEndpoint, now: u64) -> (r:
        Result<SessionId, Rejection>)
        requires
            old(self)@.wf(),
        ensures
            final(self)@ == old(self)@.open(session_id, addr, now).0,
            r == old(self)@.open(session_id, addr, now).1,
            final(self)@.wf(),
    {
        proof {
            self@.lemma_open_wf(session_id, addr, now);
        }
        if self.sessions.contains_key(&session_id) {
            return Err(Rejection::IdInUse);
        }
        self.sessions.insert(session_id, Session::with_id(session_id, addr, now));
        assert(self@.sessions =~= old(self)@.open(session_id, addr, now).0.sessions);
        Ok(session_id)
    }

    /// Records that the client of a session was heard from at `now`. An
    /// unknown session, or a time before the one recorded, changes nothing.
    pub fn see(&mut self, session_id: &SessionId, now: u64)
        requires
            old(self)@.wf(),
        ensures
            final(self)@ == old(self)@.see(*session_id, now),
            final(self)@.wf(),
    {
        proof {
            self@.lemma_see_wf(*session_id, now);
        }
        match self.sessions.remove(session_id) {
            Some(session) => {
                let mut session = session;
                session.see(now);
                self.sessions.insert(*session_id, session);
                assert(self@.sessions =~= old(self)@.see(*session_id, now).sessions);
            },
            None => {
                assert(self@.sessions =~= old(self)@.sessions);
            },
        }
    }

    /// The sessions that have timed out at `now`, each once.
    fn timed_out_sessions(&self, now: u64) -> (r: Vec<SessionId>)
        requires
            self@.wf(),
        ensures
            r@.no_duplicates(),
            r@.to_set() == self@.expired(now),
    {
        let mut expired: Vec<SessionId> = Vec::new();
        let ghost keys = spec_keys_iter(&self.sessions).remaining().unref();
        let ghost mut n: int = 0;
        assert(self@.sessions.dom() =~= self.sessions@.dom());
        for key in it: self.sessions.keys()
            invariant
                self@.sessions.dom() == self.sessions@.dom(),
                it.seq().unref() == keys,
                keys.to_set() == self.sessions@.dom(),
                keys.no_duplicates(),
                n == it.index(),
                0 <= n <= keys.len(),
                expired@.no_duplicates(),
                forall|j: int|
                    0 <= j < expired@.len() ==> self@.is_expired(#[trigger] expired@[j], now)
                        && exists|k: int| 0 <= k < n && keys[k] == expired@[j],
                forall|k: int|
                    0 <= k < n && self@.is_expired(#[trigger] keys[k], now) ==> expired@.contains(
                        keys[k],
                    ),
        {
            assert(keys[n] == *key);
            assert(keys.to_set().contains(*key));
            let is_expired = match self.sessions.get(key) {
                Some(session) => session.is_timed_out_after(now, self.session_timeout),
                None => false,
            };
            if is_expired {
                let ghost before = expired@;
                expired.push(*key);
                assert forall|k: int|
                    0 <= k < n + 1 && self@.is_expired(
                        #[trigger] keys[k],
                        now,
                    ) implies expired@.contains(keys[k]) by {
                    if k < n {
                        let j = choose|j: int| 0 <= j < before.len() && before[j] == keys[k];
                        assert(expired@[j] == keys[k]);
                    } else {
                        assert(expired@[before.len() as int] == *key);
                    }
                }
            }
            proof {
                n = n + 1;
            }
        }
        assert(n == keys.len());
        assert(expired@.to_set() =~= self@.expired(now)) by {
            assert forall|id: SessionId| self@.expired(now).contains(id) implies expired@.contains(
                id,
            ) by {
                assert(keys.to_set().contains(id));
                let k = choose|k: int| 0 <= k < keys.len() && keys[k] == id;
                assert(self@.is_expired(keys[k], now));
            }
        }
        expired
    }

    /// Removes every session that has timed out at `now` and returns their
    /// identifiers, each once: the sessions whose outbound queues are to be
    /// dropped.
    pub fn remove_timed_out(&mut self, now: u64) -> (evicted: Vec<SessionId>)
        requires
            old(self)@.wf(),
        ensures
            final(self)@ == old(self)@.remove_timed_out(now),
            final(self)@.wf(),
            evicted@.no_duplicates(),
            evicted@.to_set() == old(self)@.expired(now),
    {
        let expired = self.timed_out_sessions(now);
        self.remove_deep(expired.as_slice());
        expired
    }

    /// Sweeps the timed-out sessions if `roll` says so, and returns the
    /// identifiers of the sessions removed.
    pub fn sweep(&mut self, roll: bool, now: u64) -> (evicted: Vec<SessionId>)
        requires
            old(self)@.wf(),
        ensures
            final(self)@ == old(self)@.sweep(roll, now),
            final(self)@.wf(),
            evicted@.no_duplicates(),
            evicted@.to_set() == if roll {
                old(self)@.expired(now)
            } else {
                Set::empty()
            },
    {
        if roll {
            self.remove_timed_out(now)
        } else {
            let none: Vec<SessionId> = Vec::new();
            assert(none@.to_set() =~= Set::<SessionId>::empty());
            none
        }
    }

    /// Sweeps the timed-out sessions with a chance of
    /// [`SWEEP_NUMERATOR`] in [`SWEEP_DENOMINATOR`]. Whether the sweep ran can
    /// be told from the state alone only if a session had timed out.
    pub fn remove_timed_out_chance(&mut self, now: u64) -> (evicted: Vec<SessionId>)
        requires
            old(self)@.wf(),
        ensures
            final(self)@.wf(),
            final(self)@ == old(self)@ || final(self)@ == old(self)@.remove_timed_out(now),
            exists|roll: bool|
                {
                    &&& final(self)@ == #[trigger] old(self)@.sweep(roll, now)
                    &&& evicted@.to_set() == if roll {
                        old(self)@.expired(now)
                    } else {
                        Set::empty()
                    }
                },
            evicted@.no_duplicates(),
    {
        let roll = rand::random_ratio(SWEEP_NUMERATOR, SWEEP_DENOMINATOR);
        self.sweep(roll, now)
    }

    /// Gives a session the listing that a request carries, under the
    /// identifier given.
    fn assign_listing(
        &mut self,
        session_id: SessionId,
        listing: Option<TonicListingNoId>,
        listing_id: ListingId,
        now: u64,
    ) -> (r: Result<ListingId, Rejection>)
        requires
            old(self)@.wf(),
        ensures
            final(self)@.wf(),
            final(self)@ == old(self)@.add_listing(
                session_id,
                name_of(listing),
                listing_id,
                now,
            ).0,
            r == old(self)@.add_listing(
                session_id,
                name_of(listing),
                listing_id,
                now,
            ).1,
    {
        proof {
            self@.lemma_add_listing_wf(
                session_id,
                name_of(listing),
                listing_id,
                now,
            );
        }
        match self.validate(&session_id, now) {
            Err(e) => { return Err(e); },
            Ok(()) => {},
        }
        let listed = match self.sessions.get(&session_id) {
            Some(session) => session.listing().is_some(),
            None => false,
        };
        if listed {
            return Err(Rejection::AlreadyListed);
        }
        let listing = match listing {
            Some(inner) => RustListingNoId::from(inner),
            None => { return Err(Rejection::NoListing); },
        };
        if listing.name.as_str().as_bytes().len() > MAX_NAME_BYTES {
            return Err(Rejection::NameTooLong);
        }
        if self.id_map.contains_key(&listing_id) {
            return Err(Rejection::IdInUse);
        }
        match self.sessions.remove(&session_id) {
            Some(session) => {
                let mut session = session;
                session.set_listing(Some(RustListing::with_id(listing, listing_id)));
                self.sessions.insert(session_id, session);
                self.id_map.insert(listing_id, session_id);
            },
            None => {},
        }
        assert(self@.sessions =~= old(self)@.add_listing(
            session_id,
            Some(listing@),
            listing_id,
            now,
        ).0.sessions);
        Ok(listing_id)
    }

    /// Takes a session's listing away, if it has one.
    fn clear_listing(&mut self, session_id: SessionId, now: u64) -> (r: Result<(), Rejection>)
        requires
            old(self)@.wf(),
        ensures
            final(self)@.wf(),
            final(self)@ == old(self)@.remove_listing(session_id, now).0,
            r == old(self)@.remove_listing(session_id, now).1,
    {
        proof {
            self@.lemma_remove_listing_wf(session_id, now);
        }
        match self.validate(&session_id, now) {
            Err(e) => { return Err(e); },
            Ok(()) => {},
        }
        match self.sessions.remove(&session_id) {
            Some(session) => {
                let mut session = session;
                match session.listing() {
                    Some(listing) => {
                        self.id_map.remove(listing.id());
                    },
                    None => {},
                }
                session.set_listing(None);
                self.sessions.insert(session_id, session);
            },
            None => {},
        }
        assert(self@.sessions =~= old(self)@.remove_listing(session_id, now).0.sessions);
        assert(self@.id_map =~= old(self)@.remove_listing(session_id, now).0.id_map);
        Ok(())
    }

    /// `AddListing`, with the outcome of the sweep's roll and the identifier
    /// for the listing given.
    pub fn add_listing_with(
        &mut self,
        request: AddListingRequest,
        roll: bool,
        fresh: ListingId,
        now: u64,
    ) -> (r: Result<AddListingResponse, Rejection>)
        requires
            old(self)@.wf(),
        ensures
            final(self)@.wf(),
            final(self)@ == old(self)@.rpc_add_listing(
                request.session_id@,
                request.name(),
                roll,
                fresh,
                now,
            ).0,
            match old(self)@.rpc_add_listing(
                request.session_id@,
                request.name(),
                roll,
                fresh,
                now,
            ).1 {
                Ok(id) => r is Ok && id_of(r->Ok_0.listing_id@) == Some(id),
                Err(e) => r is Err && r->Err_0 == e,
            },
    {
        let _ = self.sweep(roll, now);
        let session_id = match id_from_bytes(request.session_id.as_slice()) {
            Ok(id) => id,
            Err(_) => { return Err(Rejection::InvalidSessionId); },
        };
        match self.assign_listing(session_id, request.listing, fresh, now) {
            Ok(id) => Ok(AddListingResponse { listing_id: id_to_bytes(id) }),
            Err(e) => Err(e),
        }
    }

    /// `AddListing`: gives the session that asks a listing under a freshly
    /// minted identifier. The request may first sweep the timed-out sessions.
    pub fn add_listing(&mut self, request: AddListingRequest, now: u64) -> (r: Result<
        AddListingResponse,
        Rejection,
    >)
        requires
            old(self)@.wf(),
        ensures
            final(self)@.wf(),
            exists|roll: bool, fresh: ListingId|
                {
                    &&& final(self)@ == (#[trigger] old(self)@.rpc_add_listing(
                        request.session_id@,
                        request.name(),
                        roll,
                        fresh,
                        now,
                    )).0
                    &&& match old(self)@.rpc_add_listing(
                        request.session_id@,
                        request.name(),
                        roll,
                        fresh,
                        now,
                    ).1 {
                        Ok(id) => r is Ok && id_of(r->Ok_0.listing_id@) == Some(id),
                        Err(e) => r is Err && r->Err_0 == e,
                    }
                },
    {
        let roll = rand::random_ratio(SWEEP_NUMERATOR, SWEEP_DENOMINATOR);
        let fresh = fresh_id();
        self.add_listing_with(request, roll, fresh, now)
    }

    /// `RemoveListing`, with the outcome of the sweep's roll given.
    pub fn remove_listing_with(&mut self, request: RemoveListingRequest, roll: bool, now: u64) -> (r:
        Result<RemoveListingResponse, Rejection>)
        requires
            old(self)@.wf(),
        ensures
            final(self)@.wf(),
            final(self)@ == old(self)@.rpc_remove_listing(request.session_id@, roll, now).0,
            match old(self)@.rpc_remove_listing(request.session_id@, roll, now).1 {
                Ok(_) => r is Ok,
                Err(e) => r is Err && r->Err_0 == e,
            },
    {
        let _ = self.sweep(roll, now);
        let session_id = match id_from_bytes(request.session_id.as_slice()) {
            Ok(id) => id,
            Err(_) => { return Err(Rejection::InvalidSessionId); },
        };
        match self.clear_listing(session_id, now) {
            Ok(()) => Ok(RemoveListingResponse {  }),
            Err(e) => Err(e),
        }
    }

    /// `RemoveListing`: takes the listing of the session that asks away. A
    /// session without a listing is answered `Ok`. The request may first sweep
    /// the timed-out sessions.
    pub fn remove_listing(&mut self, request: RemoveListingRequest, now: u64) -> (r: Result<
        RemoveListingResponse,
        Rejection,
    >)
        requires
            old(self)@.wf(),
        ensures
            final(self)@.wf(),
            exists|roll: bool|
                {
                    &&& final(self)@ == (#[trigger] old(self)@.rpc_remove_listing(
                        request.session_id@,
                        roll,
                        now,
                    )).0
                    &&& match old(self)@.rpc_remove_listing(request.session_id@, roll, now).1 {
                        Ok(_) => r is Ok,
                        Err(e) => r is Err && r->Err_0 == e,
                    }
                },
    {
        let roll = rand::random_ratio(SWEEP_NUMERATOR, SWEEP_DENOMINATOR);
        self.remove_listing_with(request, roll, now)
    }

    /// `EndSession`, with the outcome of the sweep's roll given.
    pub fn end_session_with(&mut self, request: EndSessionRequest, roll: bool, now: u64) -> (r:
        Result<EndSessionResponse, Rejection>)
        requires
            old(self)@.wf(),
        ensures
            final(self)@.wf(),
            final(self)@ == old(self)@.rpc_end_session(request.session_id@, roll, now).0,
            match old(self)@.rpc_end_session(request.session_id@, roll, now).1 {
                Ok(_) => r is Ok,
                Err(e) => r is Err && r->Err_0 == e,
            },
    {
        let _ = self.sweep(roll, now);
        let session_id = match id_from_bytes(request.session_id.as_slice()) {
            Ok(id) => id,
            Err(_) => { return Err(Rejection::InvalidSessionId); },
        };
        self.cleanup(&session_id);
        Ok(EndSessionResponse {  })
    }

    /// `EndSession`: removes the session named, with its listing. The request
    /// may first sweep the timed-out sessions.
    pub fn end_session(&mut self, request: EndSessionRequest, now: u64) -> (r: Result<
        EndSessionResponse,
        Rejection,
    >)
        requires
            old(self)@.wf(),
        ensures
            final(self)@.wf(),
            exists|roll: bool|
                {
                    &&& final(self)@ == (#[trigger] old(self)@.rpc_end_session(
                        request.session_id@,
                        roll,
                        now,
                    )).0
                    &&& match old(self)@.rpc_end_session(request.session_id@, roll, now).1 {
                        Ok(_) => r is Ok,
                        Err(e) => r is Err && r->Err_0 == e,
                    }
                },
    {
        let roll = rand::random_ratio(SWEEP_NUMERATOR, SWEEP_DENOMINATOR);
        self.end_session_with(request, roll, now)
    }

    /// The directory: the listing of every session that owns one, each once,
    /// in no particular order.
    pub fn listings(&self) -> (r: Vec<TonicListing>)
        requires
            self@.wf(),
        ensures
            self@.is_directory(r@),
            r@.len() == self@.listed().len(),
    {
        let mut out: Vec<TonicListing> = Vec::new();
        let ghost keys = spec_keys_iter(&self.sessions).remaining().unref();
        let ghost mut n: int = 0;
        let ghost mut order: Seq<SessionId> = Seq::empty();
        assert(self@.sessions.dom() =~= self.sessions@.dom());
        for key in it: self.sessions.keys()
            invariant
                self@.sessions.dom() == self.sessions@.dom(),
                it.seq().unref() == keys,
                keys.to_set() == self.sessions@.dom(),
                keys.no_duplicates(),
                n == it.index(),
                0 <= n <= keys.len(),
                order.no_duplicates(),
                order.len() == out@.len(),
                forall|j: int|
                    0 <= j < order.len() ==> self@.listed().contains(#[trigger] order[j])
                        && exists|k: int| 0 <= k < n && keys[k] == order[j],
                forall|k: int|
                    0 <= k < n && self@.listed().contains(#[trigger] keys[k]) ==> order.contains(
                        keys[k],
                    ),
                forall|i: int|
                    0 <= i < out@.len() ==> is_wire_form(
                        (#[trigger] out@[i])@,
                        self@.listing_of(order[i]),
                    ),
        {
            assert(keys[n] == *key);
            assert(keys.to_set().contains(*key));
            match self.sessions.get(key) {
                Some(session) => {
                    match session.listing() {
                        Some(listing) => {
                            let ghost before = order;
                            out.push(listing.to_packet());
                            proof {
                                order = order.push(*key);
                                assert forall|k: int|
                                    0 <= k < n + 1 && self@.listed().contains(
                                        #[trigger] keys[k],
                                    ) implies order.contains(keys[k]) by {
                                    if k < n {
                                        let j = choose|j: int|
                                            0 <= j < before.len() && before[j] == keys[k];
                                        assert(order[j] == keys[k]);
                                    } else {
                                        assert(order[before.len() as int] == *key);
                                    }
                                }
                            }
                        },
                        None => {},
                    }
                },
                None => {},
            }
            proof {
                n = n + 1;
            }
        }
        proof {
            assert(n == keys.len());
            assert(order.to_set() =~= self@.listed()) by {
                assert forall|id: SessionId| self@.listed().contains(id) implies order.contains(
                    id,
                ) by {
                    assert(keys.to_set().contains(id));
                    let k = choose|k: int| 0 <= k < keys.len() && keys[k] == id;
                    assert(self@.listed().contains(keys[k]));
                }
            }
            order.unique_seq_to_set();
            assert(self@.is_directory_in(out@, order));
        }
        out
    }

    /// `GetListings`, with the outcome of the sweep's roll given.
    pub fn get_listings_with(&mut self, request: GetListingsRequest, roll: bool, now: u64) -> (r:
        GetListingsResponse)
        requires
            old(self)@.wf(),
        ensures
            final(self)@.wf(),
            final(self)@ == old(self)@.sweep(roll, now),
            final(self)@.is_directory(r.listings@),
            r.listings@.len() == final(self)@.listed().len(),
    {
        let _ = self.sweep(roll, now);
        GetListingsResponse { listings: self.listings() }
    }

    /// `GetListings`: the directory as it stands once the request has swept
    /// the timed-out sessions, if it did.
    pub fn get_listings(&mut self, request: GetListingsRequest, now: u64) -> (r:
        GetListingsResponse)
        requires
            old(self)@.wf(),
        ensures
            final(self)@.wf(),
            final(self)@ == old(self)@ || final(self)@ == old(self)@.remove_timed_out(now),
            final(self)@.is_directory(r.listings@),
            r.listings@.len() == final(self)@.listed().len(),
    {
        let roll = rand::random_ratio(SWEEP_NUMERATOR, SWEEP_DENOMINATOR);
        self.get_listings_with(request, roll, now)
    }
}

/// The session timeout for a server in production: a quarter of an hour.
pub const PRODUCTION_SESSION_TIMEOUT: u64 = 900_000;

/// The chance with which an RPC sweeps the timed-out sessions: one in forty.
pub const SWEEP_NUMERATOR: u32 = 1;

/// See [`SWEEP_NUMERATOR`].
pub const SWEEP_DENOMINATOR: u32 = 40;

/// `rand::random_ratio` returns `true` with a chance of `numerator` in
/// `denominator`: always if the two are equal, never if `numerator` is zero.
/// It panics on a zero denominator and on a numerator above the denominator.
pub assume_specification[ rand::random_ratio ](numerator: u32, denominator: u32) -> (r: bool)
    requires
        denominator != 0,
        numerator <= denominator,
    ensures
        numerator == denominator ==> r,
        numerator == 0 ==> !r,
;

} // verus!

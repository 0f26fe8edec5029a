//! What the server's registry holds, as mathematics: the sessions, the index
//! from listings to their owners, and what each operation does to them.

use vstd::prelude::*;
use vstd::utf8::encode_utf8;

use crate::addr::PublicEndpoint;
use crate::id::{id_of, ListingId, SessionId};
use crate::proto::{Code, Listing, Status, StatusView};
use crate::server::listing::{is_wire_form, ListingState};
use crate::server::session::{timed_out, SessionState};

verus! {

/// The largest number of bytes that the name of a listing may take.
pub const MAX_NAME_BYTES: usize = 256;

/// Whether a name is short enough for a listing.
pub open spec fn name_fits(name: Seq<char>) -> bool {
    encode_utf8(name).len() <= MAX_NAME_BYTES
}

/// Why the server refused a request.
#[derive(Clone, Copy, Debug, PartialEq, Eq, Structural)]
pub enum Rejection {
    /// The session identifier is not sixteen bytes long.
    InvalidSessionId,
    /// The listing identifier is not sixteen bytes long.
    InvalidListingId,
    /// The request to add a listing carries no listing.
    NoListing,
    /// The name of the listing takes more than [`MAX_NAME_BYTES`] bytes.
    NameTooLong,
    /// No session has the identifier.
    SessionNotFound,
    /// The session had timed out; it was removed.
    SessionExpired,
    /// No listing has the identifier.
    ListingNotFound,
    /// The session already owns a listing.
    AlreadyListed,
    /// The transport could not tell the address of the peer.
    NoPeerAddress,
    /// A freshly minted identifier is already in use.
    IdInUse,
}

impl Rejection {
    /// The status code under which the refusal is reported.
    pub open spec fn spec_code(self) -> Code {
        match self {
            Rejection::InvalidSessionId
            | Rejection::InvalidListingId
            | Rejection::NoListing
            | Rejection::NameTooLong => Code::InvalidArgument,
            Rejection::SessionNotFound
            | Rejection::SessionExpired
            | Rejection::ListingNotFound => Code::NotFound,
            Rejection::AlreadyListed => Code::AlreadyExists,
            Rejection::NoPeerAddress | Rejection::IdInUse => Code::Internal,
        }
    }

    /// The status code under which the refusal is reported.
    #[verifier::when_used_as_spec(spec_code)]
    pub fn code(self) -> (r: Code)
        ensures
            r == self.spec_code(),
    {
        match self {
            Rejection::InvalidSessionId
            | Rejection::InvalidListingId
            | Rejection::NoListing
            | Rejection::NameTooLong => Code::InvalidArgument,
            Rejection::SessionNotFound
            | Rejection::SessionExpired
            | Rejection::ListingNotFound => Code::NotFound,
            Rejection::AlreadyListed => Code::AlreadyExists,
            Rejection::NoPeerAddress | Rejection::IdInUse => Code::Internal,
        }
    }
}

impl Rejection {
    /// The words with which the refusal is reported.
    pub open spec fn spec_message(self) -> Seq<char> {
        match self {
            Rejection::InvalidSessionId => "Invalid session Uuid"@,
            Rejection::InvalidListingId => "Invalid listing Uuid"@,
            Rejection::NoListing => "No supplied listing."@,
            Rejection::NameTooLong => "Listing name is too long."@,
            Rejection::SessionNotFound => "Invalid session_id: Not found."@,
            Rejection::SessionExpired => "Invalid session_id: Expired."@,
            Rejection::ListingNotFound => "Listing ID has no associated session."@,
            Rejection::AlreadyListed => "This session already has an associated listing."@,
            Rejection::NoPeerAddress => "Couldnt get client remote_addr"@,
            Rejection::IdInUse => "Identifier already in use."@,
        }
    }

    /// The status with which the refusal is reported.
    pub fn status(self) -> (r: Status)
        ensures
            r@ == (StatusView { code: self.spec_code(), message: self.spec_message() }),
    {
        let message = match self {
            Rejection::InvalidSessionId => "Invalid session Uuid",
            Rejection::InvalidListingId => "Invalid listing Uuid",
            Rejection::NoListing => "No supplied listing.",
            Rejection::NameTooLong => "Listing name is too long.",
            Rejection::SessionNotFound => "Invalid session_id: Not found.",
            Rejection::SessionExpired => "Invalid session_id: Expired.",
            Rejection::ListingNotFound => "Listing ID has no associated session.",
            Rejection::AlreadyListed => "This session already has an associated listing.",
            Rejection::NoPeerAddress => "Couldnt get client remote_addr",
            Rejection::IdInUse => "Identifier already in use.",
        };
        Status { code: self.code(), message: message.to_owned() }
    }
}

/// The two sessions of a join and the endpoint that each is to punch toward.
pub struct JoinPair {
    pub joiner: SessionId,
    pub target: SessionId,
    /// Public endpoint of the joiner: where the target punches.
    pub joiner_addr: PublicEndpoint,
    /// Public endpoint of the target: where the joiner punches.
    pub target_addr: PublicEndpoint,
}

/// The registry: every live session by its identifier, and the owner of
/// every listing by the listing's identifier.
#[verifier::ext_equal]
pub struct ServerState {
    pub sessions: Map<SessionId, SessionState>,
    pub id_map: Map<ListingId, SessionId>,
    pub session_timeout: u64,
}

impl ServerState {
    /// The registry of a server that has just started.
    pub open spec fn init(session_timeout: u64) -> ServerState {
        ServerState { sessions: Map::empty(), id_map: Map::empty(), session_timeout }
    }

    /// The session `id` is stored under its own identifier, and its listing,
    /// if it has one, is indexed under it and has a name that fits.
    pub open spec fn session_wf(self, id: SessionId) -> bool {
        &&& self.sessions[id].id == id
        &&& self.sessions[id].listing matches Some(l) ==> {
            &&& self.id_map.contains_key(l.id)
            &&& self.id_map[l.id] == id
            &&& name_fits(l.name)
        }
    }

    /// The index entry `listing` names a session that owns that listing.
    pub open spec fn entry_wf(self, listing: ListingId) -> bool {
        &&& self.sessions.contains_key(self.id_map[listing])
        &&& self.sessions[self.id_map[listing]].listing matches Some(l) && l.id == listing
    }

    /// The two maps never disagree: a session owns a listing exactly if the
    /// index names that session as the listing's owner.
    pub open spec fn wf(self) -> bool {
        &&& self.sessions.dom().finite()
        &&& self.id_map.dom().finite()
        &&& forall|id: SessionId| #[trigger] self.sessions.contains_key(id) ==> self.session_wf(id)
        &&& forall|listing: ListingId| #[trigger]
            self.id_map.contains_key(listing) ==> self.entry_wf(listing)
    }

    /// The sessions that own a listing.
    pub open spec fn listed(self) -> Set<SessionId> {
        Set::new(|id: SessionId| self.sessions.contains_key(id) && self.sessions[id].listing is Some)
    }

    /// The listing of a session that owns one.
    pub open spec fn listing_of(self, id: SessionId) -> ListingState {
        self.sessions[id].listing->0
    }

    /// Whether `entries` is the directory as `GetListings` hands it out: the
    /// listing of every session that owns one, each once, in some order.
    pub open spec fn is_directory(self, entries: Seq<Listing>) -> bool {
        exists|order: Seq<SessionId>| #[trigger] self.is_directory_in(entries, order)
    }

    /// Whether `entries` holds the listings of the sessions `order`, one by
    /// one, and `order` names every session that owns a listing once.
    pub open spec fn is_directory_in(self, entries: Seq<Listing>, order: Seq<SessionId>) -> bool {
        &&& order.no_duplicates()
        &&& order.to_set() == self.listed()
        &&& order.len() == entries.len()
        &&& forall|i: int|
            0 <= i < entries.len() ==> is_wire_form(
                (#[trigger] entries[i])@,
                self.listing_of(order[i]),
            )
    }

    /// Whether the session exists and has been silent for longer than the
    /// timeout.
    pub open spec fn is_expired(self, id: SessionId, now: u64) -> bool {
        self.sessions.contains_key(id) && timed_out(
            self.sessions[id].last_seen,
            now,
            self.session_timeout,
        )
    }

    /// Whether the session exists and has not timed out.
    pub open spec fn is_live(self, id: SessionId, now: u64) -> bool {
        self.sessions.contains_key(id) && !timed_out(
            self.sessions[id].last_seen,
            now,
            self.session_timeout,
        )
    }

    /// The sessions that have timed out at `now`.
    pub open spec fn expired(self, now: u64) -> Set<SessionId> {
        Set::new(|id: SessionId| self.is_expired(id, now))
    }

    /// Removes the sessions in `ids` and, with each, its listing from the
    /// index.
    pub open spec fn remove_deep(self, ids: Set<SessionId>) -> ServerState {
        ServerState {
            sessions: self.sessions.remove_keys(ids),
            id_map: Map::new(
                |l: ListingId| self.id_map.contains_key(l) && !ids.contains(self.id_map[l]),
                |l: ListingId| self.id_map[l],
            ),
            session_timeout: self.session_timeout,
        }
    }

    /// Removes one session, if it exists, with its listing.
    pub open spec fn end(self, id: SessionId) -> ServerState {
        self.remove_deep(set![id])
    }

    /// Removes every session that has timed out at `now`.
    pub open spec fn remove_timed_out(self, now: u64) -> ServerState {
        self.remove_deep(self.expired(now))
    }

    /// The sweep that an RPC triggers by chance.
    pub open spec fn sweep(self, roll: bool, now: u64) -> ServerState {
        if roll {
            self.remove_timed_out(now)
        } else {
            self
        }
    }

    /// Resolves a session. One that has timed out is removed and refused.
    pub open spec fn validate(self, id: SessionId, now: u64) -> (ServerState, Result<(), Rejection>) {
        if !self.sessions.contains_key(id) {
            (self, Err(Rejection::SessionNotFound))
        } else if self.is_expired(id, now) {
            (self.end(id), Err(Rejection::SessionExpired))
        } else {
            (self, Ok(()))
        }
    }

    /// Registers a session under `id`, seen at `now`, without a listing.
    pub open spec fn open(self, id: SessionId, addr: PublicEndpoint, now: u64) -> (
        ServerState,
        Result<SessionId, Rejection>,
    ) {
        if self.sessions.contains_key(id) {
            (self, Err(Rejection::IdInUse))
        } else {
            (
                ServerState {
                    sessions: self.sessions.insert(
                        id,
                        SessionState { id, addr, listing: None, last_seen: now },
                    ),
                    ..self
                },
                Ok(id),
            )
        }
    }

    /// Records that the client of `id` was heard from at `now`.
    pub open spec fn see(self, id: SessionId, now: u64) -> ServerState {
        if self.sessions.contains_key(id) && now > self.sessions[id].last_seen {
            ServerState {
                sessions: self.sessions.insert(
                    id,
                    SessionState { last_seen: now, ..self.sessions[id] },
                ),
                ..self
            }
        } else {
            self
        }
    }

    /// Gives the session a listing named `name` under `listing`.
    pub open spec fn add_listing(
        self,
        id: SessionId,
        name: Option<Seq<char>>,
        listing: ListingId,
        now: u64,
    ) -> (ServerState, Result<ListingId, Rejection>) {
        let (s, valid) = self.validate(id, now);
        if valid is Err {
            (s, Err(valid->Err_0))
        } else if s.sessions[id].listing is Some {
            (s, Err(Rejection::AlreadyListed))
        } else if name is None {
            (s, Err(Rejection::NoListing))
        } else if !name_fits(name->0) {
            (s, Err(Rejection::NameTooLong))
        } else if s.id_map.contains_key(listing) {
            (s, Err(Rejection::IdInUse))
        } else {
            (
                ServerState {
                    sessions: s.sessions.insert(
                        id,
                        SessionState {
                            listing: Some(ListingState { id: listing, name: name->0 }),
                            ..s.sessions[id]
                        },
                    ),
                    id_map: s.id_map.insert(listing, id),
                    ..s
                },
                Ok(listing),
            )
        }
    }

    /// Takes the session's listing away, if it has one.
    pub open spec fn remove_listing(self, id: SessionId, now: u64) -> (
        ServerState,
        Result<(), Rejection>,
    ) {
        let (s, valid) = self.validate(id, now);
        if valid is Err {
            (s, Err(valid->Err_0))
        } else if s.sessions[id].listing is Some {
            (
                ServerState {
                    sessions: s.sessions.insert(
                        id,
                        SessionState { listing: None, ..s.sessions[id] },
                    ),
                    id_map: s.id_map.remove(s.listing_of(id).id),
                    ..s
                },
                Ok(()),
            )
        } else {
            (s, Ok(()))
        }
    }

    /// Resolves the two sessions of a join: the one that asks and the owner of
    /// the listing.
    pub open spec fn join(self, id: SessionId, listing: ListingId, now: u64) -> (
        ServerState,
        Result<JoinPair, Rejection>,
    ) {
        let (s, valid) = self.validate(id, now);
        if valid is Err {
            (s, Err(valid->Err_0))
        } else if !s.id_map.contains_key(listing) {
            (s, Err(Rejection::ListingNotFound))
        } else {
            let target = s.id_map[listing];
            let (t, target_valid) = s.validate(target, now);
            if target_valid is Err {
                (t, Err(target_valid->Err_0))
            } else {
                (
                    t,
                    Ok(
                        JoinPair {
                            joiner: id,
                            target,
                            joiner_addr: t.sessions[id].addr,
                            target_addr: t.sessions[target].addr,
                        },
                    ),
                )
            }
        }
    }
}

// ---------------------------------------------------------------------------
// The requests as they arrive: identifiers as bytes, and the sweep by chance
// ---------------------------------------------------------------------------

impl ServerState {
    /// Stream setup: sweeps if `roll` says so, then registers a session for
    /// the peer at `remote` under `fresh`.
    pub open spec fn rpc_stream_session(
        self,
        remote: Option<PublicEndpoint>,
        roll: bool,
        fresh: SessionId,
        now: u64,
    ) -> (ServerState, Result<SessionId, Rejection>) {
        let s = self.sweep(roll, now);
        match remote {
            None => (s, Err(Rejection::NoPeerAddress)),
            Some(addr) => s.open(fresh, addr, now),
        }
    }

    /// `AddListing`: sweeps if `roll` says so, reads the session identifier,
    /// then gives that session a listing under `fresh`.
    pub open spec fn rpc_add_listing(
        self,
        session_id: Seq<u8>,
        name: Option<Seq<char>>,
        roll: bool,
        fresh: ListingId,
        now: u64,
    ) -> (ServerState, Result<ListingId, Rejection>) {
        let s = self.sweep(roll, now);
        match id_of(session_id) {
            None => (s, Err(Rejection::InvalidSessionId)),
            Some(id) => s.add_listing(id, name, fresh, now),
        }
    }

    /// `RemoveListing`: sweeps if `roll` says so, reads the session
    /// identifier, then takes that session's listing away.
    pub open spec fn rpc_remove_listing(self, session_id: Seq<u8>, roll: bool, now: u64) -> (
        ServerState,
        Result<(), Rejection>,
    ) {
        let s = self.sweep(roll, now);
        match id_of(session_id) {
            None => (s, Err(Rejection::InvalidSessionId)),
            Some(id) => s.remove_listing(id, now),
        }
    }

    /// `EndSession`: sweeps if `roll` says so, reads the session identifier,
    /// then removes that session. Ending a session that does not exist
    /// succeeds.
    pub open spec fn rpc_end_session(self, session_id: Seq<u8>, roll: bool, now: u64) -> (
        ServerState,
        Result<(), Rejection>,
    ) {
        let s = self.sweep(roll, now);
        match id_of(session_id) {
            None => (s, Err(Rejection::InvalidSessionId)),
            Some(id) => (s.end(id), Ok(())),
        }
    }

    /// `Join`: reads and resolves the session that asks, then reads the
    /// listing identifier and resolves the listing's owner.
    pub open spec fn rpc_join(self, session_id: Seq<u8>, listing_id: Seq<u8>, now: u64) -> (
        ServerState,
        Result<JoinPair, Rejection>,
    ) {
        match id_of(session_id) {
            None => (self, Err(Rejection::InvalidSessionId)),
            Some(id) => {
                let (s, valid) = self.validate(id, now);
                if valid is Err {
                    (s, Err(valid->Err_0))
                } else {
                    match id_of(listing_id) {
                        None => (s, Err(Rejection::InvalidListingId)),
                        Some(listing) => s.join(id, listing, now),
                    }
                }
            },
        }
    }
}

// ---------------------------------------------------------------------------
// Every operation keeps the two maps in agreement
// ---------------------------------------------------------------------------

impl ServerState {
    pub proof fn lemma_init_wf(session_timeout: u64)
        ensures
            Self::init(session_timeout).wf(),
    {
    }

    pub proof fn lemma_remove_deep_wf(self, ids: Set<SessionId>)
        requires
            self.wf(),
        ensures
            self.remove_deep(ids).wf(),
    {
        let r = self.remove_deep(ids);
        assert(r.sessions.dom().subset_of(self.sessions.dom()));
        assert(r.id_map.dom().subset_of(self.id_map.dom()));
        vstd::set_lib::lemma_set_subset_finite(self.sessions.dom(), r.sessions.dom());
        vstd::set_lib::lemma_set_subset_finite(self.id_map.dom(), r.id_map.dom());
        assert forall|id: SessionId| #[trigger] r.sessions.contains_key(id) implies r.session_wf(
            id,
        ) by {
            assert(self.session_wf(id));
        }
        assert forall|listing: ListingId| #[trigger]
            r.id_map.contains_key(listing) implies r.entry_wf(listing) by {
            assert(self.entry_wf(listing));
        }
    }

    /// Removing two sets of sessions one after the other removes their union.
    pub proof fn lemma_remove_deep_twice(self, a: Set<SessionId>, b: Set<SessionId>)
        ensures
            self.remove_deep(a).remove_deep(b) == self.remove_deep(a.union(b)),
    {
        let x = self.remove_deep(a).remove_deep(b);
        let y = self.remove_deep(a.union(b));
        assert(x.sessions =~= y.sessions);
        assert(x.id_map =~= y.id_map);
    }

    /// Removing no session changes nothing.
    pub proof fn lemma_remove_deep_nothing(self, ids: Set<SessionId>)
        requires
            self.wf(),
            forall|id: SessionId| ids.contains(id) ==> !self.sessions.contains_key(id),
        ensures
            self.remove_deep(ids) == self,
    {
        let r = self.remove_deep(ids);
        assert(r.sessions =~= self.sessions);
        assert forall|l: ListingId| self.id_map.contains_key(l) implies r.id_map.contains_key(
            l,
        ) by {
            assert(self.entry_wf(l));
        }
        assert(r.id_map =~= self.id_map);
    }

    /// Removing one session takes it out of the sessions and, if it owns a
    /// listing, that listing out of the index, and nothing else.
    pub proof fn lemma_end(self, id: SessionId)
        requires
            self.wf(),
            self.sessions.contains_key(id),
        ensures
            self.end(id).sessions == self.sessions.remove(id),
            self.sessions[id].listing matches Some(l) ==> self.end(id).id_map == self.id_map.remove(
                l.id,
            ),
            self.sessions[id].listing is None ==> self.end(id).id_map == self.id_map,
    {
        let r = self.end(id);
        assert(r.sessions =~= self.sessions.remove(id));
        assert(self.session_wf(id));
        match self.sessions[id].listing {
            Some(l) => {
                assert forall|k: ListingId| #[trigger]
                    self.id_map.remove(l.id).contains_key(k) implies r.id_map.contains_key(k) by {
                    assert(self.entry_wf(k));
                }
                assert(r.id_map =~= self.id_map.remove(l.id));
            },
            None => {
                assert forall|k: ListingId| #[trigger]
                    self.id_map.contains_key(k) implies r.id_map.contains_key(k) by {
                    assert(self.entry_wf(k));
                }
                assert(r.id_map =~= self.id_map);
            },
        }
    }

    pub proof fn lemma_sweep_wf(self, roll: bool, now: u64)
        requires
            self.wf(),
        ensures
            self.sweep(roll, now).wf(),
    {
        self.lemma_remove_deep_wf(self.expired(now));
    }

    pub proof fn lemma_validate_wf(self, id: SessionId, now: u64)
        requires
            self.wf(),
        ensures
            self.validate(id, now).0.wf(),
            self.validate(id, now).1 is Ok ==> self.validate(id, now).0 == self && self.is_live(
                id,
                now,
            ),
    {
        self.lemma_remove_deep_wf(set![id]);
    }

    pub proof fn lemma_open_wf(self, id: SessionId, addr: PublicEndpoint, now: u64)
        requires
            self.wf(),
        ensures
            self.open(id, addr, now).0.wf(),
    {
        let r = self.open(id, addr, now).0;
        if !self.sessions.contains_key(id) {
            assert forall|k: SessionId| #[trigger] r.sessions.contains_key(k) implies r.session_wf(
                k,
            ) by {
                if k != id {
                    assert(self.session_wf(k));
                }
            }
            assert forall|listing: ListingId| #[trigger]
                r.id_map.contains_key(listing) implies r.entry_wf(listing) by {
                assert(self.entry_wf(listing));
            }
        }
    }

    pub proof fn lemma_see_wf(self, id: SessionId, now: u64)
        requires
            self.wf(),
        ensures
            self.see(id, now).wf(),
    {
        let r = self.see(id, now);
        assert forall|k: SessionId| #[trigger] r.sessions.contains_key(k) implies r.session_wf(
            k,
        ) by {
            assert(self.session_wf(k));
        }
        assert forall|listing: ListingId| #[trigger]
            r.id_map.contains_key(listing) implies r.entry_wf(listing) by {
            assert(self.entry_wf(listing));
        }
    }

    pub proof fn lemma_add_listing_wf(
        self,
        id: SessionId,
        name: Option<Seq<char>>,
        listing: ListingId,
        now: u64,
    )
        requires
            self.wf(),
        ensures
            self.add_listing(id, name, listing, now).0.wf(),
    {
        self.lemma_validate_wf(id, now);
        let s = self.validate(id, now).0;
        let r = self.add_listing(id, name, listing, now);
        if r.1 is Ok {
            assert forall|k: SessionId| #[trigger]
                r.0.sessions.contains_key(k) implies r.0.session_wf(k) by {
                if k != id {
                    assert(s.session_wf(k));
                }
            }
            assert forall|l: ListingId| #[trigger] r.0.id_map.contains_key(l) implies r.0.entry_wf(
                l,
            ) by {
                if l != listing {
                    assert(s.entry_wf(l));
                }
            }
        }
    }

    pub proof fn lemma_remove_listing_wf(self, id: SessionId, now: u64)
        requires
            self.wf(),
        ensures
            self.remove_listing(id, now).0.wf(),
    {
        self.lemma_validate_wf(id, now);
        let s = self.validate(id, now).0;
        let r = self.remove_listing(id, now);
        if r.1 is Ok && s.sessions[id].listing is Some {
            assert(s.session_wf(id));
            assert forall|k: SessionId| #[trigger]
                r.0.sessions.contains_key(k) implies r.0.session_wf(k) by {
                if k != id {
                    assert(s.session_wf(k));
                }
            }
            assert forall|l: ListingId| #[trigger] r.0.id_map.contains_key(l) implies r.0.entry_wf(
                l,
            ) by {
                assert(s.entry_wf(l));
            }
        }
    }

    pub proof fn lemma_join_wf(self, id: SessionId, listing: ListingId, now: u64)
        requires
            self.wf(),
        ensures
            self.join(id, listing, now).0.wf(),
            self.join(id, listing, now).1 is Ok ==> self.join(id, listing, now).0 == self,
    {
        self.lemma_validate_wf(id, now);
        let s = self.validate(id, now).0;
        if self.validate(id, now).1 is Ok && s.id_map.contains_key(listing) {
            s.lemma_validate_wf(s.id_map[listing], now);
        }
    }
}

} // verus!

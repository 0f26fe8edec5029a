//! What holds of the registry whatever is asked of it.

use vstd::prelude::*;

use crate::addr::PublicEndpoint;
use crate::id::{id_of, ListingId, SessionId};
use crate::client::session::keepalive_after;
use crate::proto::{ClientStreamMessage, Listing};
use crate::server::listing::{is_wire_form, ListingState};
use crate::server::session::Session;
use crate::server::state::{Rejection, ServerState};
use crate::server::stream::StreamEvent;

verus! {

/// One thing asked of the server: a request on its RPC surface, or something
/// arriving on the stream of a session. Each carries the time at which it is
/// served and what chance decided: whether it swept, and the identifier that
/// was minted.
pub enum Operation {
    StreamSession { remote: Option<PublicEndpoint>, roll: bool, fresh: SessionId, now: u64 },
    AddListing {
        session_id: Seq<u8>,
        name: Option<Seq<char>>,
        roll: bool,
        fresh: ListingId,
        now: u64,
    },
    RemoveListing { session_id: Seq<u8>, roll: bool, now: u64 },
    GetListings { roll: bool, now: u64 },
    EndSession { session_id: Seq<u8>, roll: bool, now: u64 },
    Join { session_id: Seq<u8>, listing_id: Seq<u8>, now: u64 },
    Stream { session: SessionId, event: StreamEvent, now: u64 },
}

impl Operation {
    /// The time at which the operation is served.
    pub open spec fn now(self) -> u64 {
        match self {
            Operation::StreamSession { now, .. } => now,
            Operation::AddListing { now, .. } => now,
            Operation::RemoveListing { now, .. } => now,
            Operation::GetListings { now, .. } => now,
            Operation::EndSession { now, .. } => now,
            Operation::Join { now, .. } => now,
            Operation::Stream { now, .. } => now,
        }
    }

    /// Whether the operation ends the session `id` on purpose: an
    /// `EndSession` that names it, or the end or failure of its stream.
    pub open spec fn ends(self, id: SessionId) -> bool {
        match self {
            Operation::EndSession { session_id, .. } => id_of(session_id) == Some(id),
            Operation::Stream { session, event, .. } => session == id && !(event is Message),
            _ => false,
        }
    }
}

impl ServerState {
    /// The registry after one operation.
    pub open spec fn apply(self, op: Operation) -> ServerState {
        match op {
            Operation::StreamSession { remote, roll, fresh, now } => self.rpc_stream_session(
                remote,
                roll,
                fresh,
                now,
            ).0,
            Operation::AddListing { session_id, name, roll, fresh, now } => self.rpc_add_listing(
                session_id,
                name,
                roll,
                fresh,
                now,
            ).0,
            Operation::RemoveListing { session_id, roll, now } => self.rpc_remove_listing(
                session_id,
                roll,
                now,
            ).0,
            Operation::GetListings { roll, now } => self.sweep(roll, now),
            Operation::EndSession { session_id, roll, now } => self.rpc_end_session(
                session_id,
                roll,
                now,
            ).0,
            Operation::Join { session_id, listing_id, now } => self.rpc_join(
                session_id,
                listing_id,
                now,
            ).0,
            Operation::Stream { session, event, now } => self.stream_event(session, event, now).0,
        }
    }

    /// The registry after a sequence of operations, first operation first.
    pub open spec fn run(self, ops: Seq<Operation>) -> ServerState
        decreases ops.len(),
    {
        if ops.len() == 0 {
            self
        } else {
            self.run(ops.drop_last()).apply(ops.last())
        }
    }

    /// Whether the owner of the listing `listing` is the session `id`.
    pub open spec fn owns(self, id: SessionId, listing: ListingId) -> bool {
        self.id_map.contains_key(listing) && self.id_map[listing] == id
    }
}

/// One operation keeps the two maps in agreement.
#[verifier::rlimit(40)]
pub proof fn lemma_apply_wf(s: ServerState, op: Operation)
    requires
        s.wf(),
    ensures
        s.apply(op).wf(),
{
    match op {
        Operation::StreamSession { remote, roll, fresh, now } => {
            s.lemma_sweep_wf(roll, now);
            if let Some(addr) = remote {
                s.sweep(roll, now).lemma_open_wf(fresh, addr, now);
            }
        },
        Operation::AddListing { session_id, name, roll, fresh, now } => {
            s.lemma_sweep_wf(roll, now);
            if let Some(id) = id_of(session_id) {
                s.sweep(roll, now).lemma_add_listing_wf(id, name, fresh, now);
            }
        },
        Operation::RemoveListing { session_id, roll, now } => {
            s.lemma_sweep_wf(roll, now);
            if let Some(id) = id_of(session_id) {
                s.sweep(roll, now).lemma_remove_listing_wf(id, now);
            }
        },
        Operation::GetListings { roll, now } => {
            s.lemma_sweep_wf(roll, now);
        },
        Operation::EndSession { session_id, roll, now } => {
            s.lemma_sweep_wf(roll, now);
            if let Some(id) = id_of(session_id) {
                s.sweep(roll, now).lemma_remove_deep_wf(set![id]);
            }
        },
        Operation::Join { session_id, listing_id, now } => {
            if let Some(id) = id_of(session_id) {
                s.lemma_validate_wf(id, now);
                if let Some(listing) = id_of(listing_id) {
                    s.lemma_join_wf(id, listing, now);
                }
            }
        },
        Operation::Stream { session, event, now } => {
            s.lemma_see_wf(session, now);
            s.lemma_remove_deep_wf(set![session]);
        },
    }
}

/// Whatever the server is asked, in whatever order, from its start, the two
/// maps agree.
pub proof fn lemma_run_wf(session_timeout: u64, ops: Seq<Operation>)
    ensures
        ServerState::init(session_timeout).run(ops).wf(),
    decreases ops.len(),
{
    if ops.len() > 0 {
        lemma_run_wf(session_timeout, ops.drop_last());
        lemma_apply_wf(ServerState::init(session_timeout).run(ops.drop_last()), ops.last());
    }
}

/// While the two maps agree, there are as many listings in the index as
/// sessions that own a listing.
pub proof fn lemma_index_counts_listed(s: ServerState)
    requires
        s.wf(),
    ensures
        s.listed().finite(),
        s.id_map.dom().len() == s.listed().len(),
{
    assert(s.listed().subset_of(s.sessions.dom()));
    vstd::set_lib::lemma_set_subset_finite(s.sessions.dom(), s.listed());
    let f = |id: SessionId| s.listing_of(id).id;
    assert forall|a: SessionId| s.listed().contains(a) implies s.id_map.dom().contains(f(a)) by {
        assert(s.session_wf(a));
    }
    assert forall|b: ListingId| s.id_map.dom().contains(b) implies exists|a: SessionId|
        s.listed().contains(a) && f(a) == b by {
        assert(s.entry_wf(b));
        assert(s.listed().contains(s.id_map[b]));
    }
    assert forall|a1: SessionId, a2: SessionId|
        s.listed().contains(a1) && s.listed().contains(a2) && #[trigger] f(a1) == #[trigger] f(
            a2,
        ) implies a1 == a2 by {
        assert(s.session_wf(a1));
        assert(s.session_wf(a2));
    }
    lemma_bijection_size(s.listed(), s.id_map.dom(), f);
}

/// Two finite sets between which a function is one-to-one and onto have the
/// same size.
proof fn lemma_bijection_size<A, B>(x: Set<A>, y: Set<B>, f: spec_fn(A) -> B)
    requires
        x.finite(),
        y.finite(),
        forall|a: A| x.contains(a) ==> y.contains(#[trigger] f(a)),
        forall|b: B| #[trigger] y.contains(b) ==> exists|a: A| x.contains(a) && f(a) == b,
        forall|a1: A, a2: A|
            x.contains(a1) && x.contains(a2) && #[trigger] f(a1) == #[trigger] f(a2) ==> a1 == a2,
    ensures
        x.len() == y.len(),
    decreases x.len(),
{
    if x.len() == 0 {
        assert(x =~= Set::empty());
        if y.len() > 0 {
            let b = y.choose();
            assert(y.contains(b));
        }
    } else {
        let a = x.choose();
        let b = f(a);
        assert forall|c: B| #[trigger] y.remove(b).contains(c) implies exists|a2: A|
            x.remove(a).contains(a2) && f(a2) == c by {
            let a2 = choose|a2: A| x.contains(a2) && f(a2) == c;
            assert(x.remove(a).contains(a2));
        }
        lemma_bijection_size(x.remove(a), y.remove(b), f);
    }
}

/// Whatever the server was asked, in whatever order, from its start: the
/// number of listings that `GetListings` hands out is the number of sessions
/// that own a listing.
pub proof fn law_directory_counts_listed_sessions(
    session_timeout: u64,
    ops: Seq<Operation>,
    entries: Seq<Listing>,
)
    requires
        ServerState::init(session_timeout).run(ops).is_directory(entries),
    ensures
        entries.len() == ServerState::init(session_timeout).run(ops).listed().len(),
        entries.len() == ServerState::init(session_timeout).run(ops).id_map.dom().len(),
{
    let s = ServerState::init(session_timeout).run(ops);
    lemma_run_wf(session_timeout, ops);
    lemma_index_counts_listed(s);
    let order = choose|order: Seq<SessionId>| #[trigger] s.is_directory_in(entries, order);
    order.unique_seq_to_set();
}

/// Whether a directory entry is a listing of the session `id`.
pub open spec fn is_entry_of(s: ServerState, entry: Listing, id: SessionId) -> bool {
    id_of(entry@.id) matches Some(listing) && s.owns(id, listing)
}

/// After `AddListing` succeeds, the directory holds exactly one listing of
/// the caller's, and it has the name supplied and the identifier returned.
#[verifier::rlimit(40)]
pub proof fn law_added_listing_is_listed_once(
    s: ServerState,
    session_id: Seq<u8>,
    name: Option<Seq<char>>,
    roll: bool,
    fresh: ListingId,
    now: u64,
    entries: Seq<Listing>,
)
    requires
        s.wf(),
        s.rpc_add_listing(session_id, name, roll, fresh, now).1 is Ok,
        s.rpc_add_listing(session_id, name, roll, fresh, now).0.is_directory(entries),
    ensures
        s.rpc_add_listing(session_id, name, roll, fresh, now).1 == Ok::<ListingId, Rejection>(
            fresh,
        ),
        id_of(session_id) is Some,
        name is Some,
        exists|i: int|
            0 <= i < entries.len() && id_of((#[trigger] entries[i])@.id) == Some(fresh)
                && entries[i]@.name == name && is_entry_of(
                s.rpc_add_listing(session_id, name, roll, fresh, now).0,
                entries[i],
                id_of(session_id)->0,
            ),
        forall|i: int, j: int|
            0 <= i < entries.len() && 0 <= j < entries.len() && is_entry_of(
                s.rpc_add_listing(session_id, name, roll, fresh, now).0,
                #[trigger] entries[i],
                id_of(session_id)->0,
            ) && is_entry_of(
                s.rpc_add_listing(session_id, name, roll, fresh, now).0,
                #[trigger] entries[j],
                id_of(session_id)->0,
            ) ==> i == j,
{
    let t = s.rpc_add_listing(session_id, name, roll, fresh, now).0;
    let id = id_of(session_id)->0;
    lemma_apply_wf(s, Operation::AddListing { session_id, name, roll, fresh, now });
    s.lemma_sweep_wf(roll, now);
    s.sweep(roll, now).lemma_validate_wf(id, now);
    let order = choose|order: Seq<SessionId>| #[trigger] t.is_directory_in(entries, order);
    assert(t.listed().contains(id));
    assert(order.to_set().contains(id));
    let i = choose|i: int| 0 <= i < order.len() && order[i] == id;
    assert(is_wire_form(entries[i]@, t.listing_of(order[i])));
    assert forall|a: int, b: int|
        0 <= a < entries.len() && 0 <= b < entries.len() && is_entry_of(
            t,
            #[trigger] entries[a],
            id,
        ) && is_entry_of(t, #[trigger] entries[b], id) implies a == b by {
        assert(order.to_set().contains(order[a]));
        assert(order.to_set().contains(order[b]));
        assert(t.session_wf(order[a]));
        assert(t.session_wf(order[b]));
        assert(is_wire_form(entries[a]@, t.listing_of(order[a])));
        assert(is_wire_form(entries[b]@, t.listing_of(order[b])));
    }
}

/// While the two maps agree, the directory holds no listing under an
/// identifier that the index does not know.
pub proof fn lemma_unindexed_is_not_listed(s: ServerState, listing: ListingId, entries: Seq<Listing>)
    requires
        s.wf(),
        !s.id_map.contains_key(listing),
        s.is_directory(entries),
    ensures
        forall|i: int| 0 <= i < entries.len() ==> id_of((#[trigger] entries[i])@.id) != Some(listing),
{
    let order = choose|order: Seq<SessionId>| #[trigger] s.is_directory_in(entries, order);
    assert forall|i: int| 0 <= i < entries.len() implies id_of((#[trigger] entries[i])@.id)
        != Some(listing) by {
        assert(order.to_set().contains(order[i]));
        assert(s.session_wf(order[i]));
        assert(is_wire_form(entries[i]@, s.listing_of(order[i])));
    }
}

/// After `RemoveListing` for a session, whether it succeeds or finds the
/// session timed out, the directory no longer holds the listing that the
/// session owned.
pub proof fn law_removed_listing_is_not_listed(
    s: ServerState,
    session_id: Seq<u8>,
    roll: bool,
    now: u64,
    entries: Seq<Listing>,
)
    requires
        s.wf(),
        id_of(session_id) is Some,
        s.listed().contains(id_of(session_id)->0),
        s.rpc_remove_listing(session_id, roll, now).0.is_directory(entries),
    ensures
        forall|i: int|
            0 <= i < entries.len() ==> id_of((#[trigger] entries[i])@.id) != Some(
                s.listing_of(id_of(session_id)->0).id,
            ),
{
    let id = id_of(session_id)->0;
    let t = s.rpc_remove_listing(session_id, roll, now).0;
    lemma_apply_wf(s, Operation::RemoveListing { session_id, roll, now });
    s.lemma_sweep_wf(roll, now);
    assert(s.session_wf(id));
    let w = s.sweep(roll, now);
    if w.sessions.contains_key(id) {
        assert(w.session_wf(id));
        w.lemma_validate_wf(id, now);
    }
    lemma_unindexed_is_not_listed(t, s.listing_of(id).id, entries);
}

/// Whether the operation mints the listing identifier `listing`.
pub open spec fn mints(op: Operation, listing: ListingId) -> bool {
    op matches Operation::AddListing { fresh, .. } && fresh == listing
}

/// After a session is dropped, be it by `EndSession`, by the end or failure
/// of its stream, or because it was found timed out, the directory no longer
/// holds the listing that the session owned. (An `AddListing` that sweeps the
/// session away and mints the same identifier again for its caller is left
/// out: that listing is another one.)
pub proof fn law_dropped_session_is_not_listed(
    s: ServerState,
    op: Operation,
    id: SessionId,
    entries: Seq<Listing>,
)
    requires
        s.wf(),
        s.listed().contains(id),
        !s.apply(op).sessions.contains_key(id),
        !mints(op, s.listing_of(id).id),
        s.apply(op).is_directory(entries),
    ensures
        forall|i: int|
            0 <= i < entries.len() ==> id_of((#[trigger] entries[i])@.id) != Some(
                s.listing_of(id).id,
            ),
{
    let t = s.apply(op);
    let l = s.listing_of(id).id;
    lemma_apply_wf(s, op);
    assert(s.session_wf(id));
    if t.id_map.contains_key(l) {
        assert(t.entry_wf(l));
        lemma_owner_stays(s, op, l);
    }
    lemma_unindexed_is_not_listed(t, l, entries);
}

/// A listing that is indexed before and after an operation has the same
/// owner, unless the operation minted its identifier.
#[verifier::rlimit(40)]
proof fn lemma_owner_stays(s: ServerState, op: Operation, l: ListingId)
    requires
        s.wf(),
        s.id_map.contains_key(l),
        s.apply(op).id_map.contains_key(l),
        !mints(op, l),
    ensures
        s.apply(op).id_map[l] == s.id_map[l],
{
    match op {
        Operation::StreamSession { remote, roll, fresh, now } => {},
        Operation::AddListing { session_id, name, roll, fresh, now } => {
            let w = s.sweep(roll, now);
            if let Some(caller) = id_of(session_id) {
                let v = w.validate(caller, now).0;
                assert(w.id_map.contains_key(l) ==> w.id_map[l] == s.id_map[l]);
                assert(v.id_map.contains_key(l) ==> v.id_map[l] == s.id_map[l]);
            }
        },
        Operation::RemoveListing { session_id, roll, now } => {
            let w = s.sweep(roll, now);
            if let Some(caller) = id_of(session_id) {
                let v = w.validate(caller, now).0;
                assert(w.id_map.contains_key(l) ==> w.id_map[l] == s.id_map[l]);
                assert(v.id_map.contains_key(l) ==> v.id_map[l] == s.id_map[l]);
            }
        },
        Operation::GetListings { roll, now } => {},
        Operation::EndSession { session_id, roll, now } => {},
        Operation::Join { session_id, listing_id, now } => {
            if let Some(caller) = id_of(session_id) {
                let v = s.validate(caller, now).0;
                assert(v.id_map.contains_key(l) ==> v.id_map[l] == s.id_map[l]);
                if let Some(listing) = id_of(listing_id) {
                    if s.validate(caller, now).1 is Ok && v.id_map.contains_key(listing) {
                        let u = v.validate(v.id_map[listing], now).0;
                        assert(u.id_map.contains_key(l) ==> u.id_map[l] == s.id_map[l]);
                    }
                }
            }
        },
        Operation::Stream { session, event, now } => {},
    }
}

/// Whether every session of `t` that `s` has as well was last heard from no
/// earlier in `t` than in `s`.
pub open spec fn no_earlier(s: ServerState, t: ServerState) -> bool {
    forall|id: SessionId|
        s.sessions.contains_key(id) && #[trigger] t.sessions.contains_key(id)
            ==> t.sessions[id].last_seen >= s.sessions[id].last_seen
}

/// Whether `t` still has every session of `s` that is live at `now`, but
/// perhaps `except`.
pub open spec fn keeps_live(s: ServerState, t: ServerState, now: u64, except: Option<
    SessionId,
>) -> bool {
    forall|id: SessionId| #[trigger]
        s.is_live(id, now) && except != Some(id) ==> t.is_live(id, now)
}

proof fn lemma_sweep_keeps(s: ServerState, roll: bool, now: u64)
    ensures
        no_earlier(s, s.sweep(roll, now)),
        keeps_live(s, s.sweep(roll, now), now, None),
        s.sweep(roll, now).session_timeout == s.session_timeout,
{
}

proof fn lemma_validate_keeps(s: ServerState, id: SessionId, now: u64)
    ensures
        no_earlier(s, s.validate(id, now).0),
        keeps_live(s, s.validate(id, now).0, now, None),
        s.validate(id, now).0.session_timeout == s.session_timeout,
{
}

proof fn lemma_steps_keep(s: ServerState, t: ServerState, u: ServerState, now: u64, except: Option<
    SessionId,
>)
    requires
        keeps_live(s, t, now, None),
        keeps_live(t, u, now, except),
    ensures
        keeps_live(s, u, now, except),
{
    assert forall|id: SessionId| #[trigger] s.is_live(id, now) && except != Some(
        id,
    ) implies u.is_live(id, now) by {
        assert(t.is_live(id, now));
    }
}

/// What one operation does to the sessions: it drops none that is live when
/// it is served, but the one it ends on purpose.
#[verifier::rlimit(40)]
proof fn lemma_apply_keeps_live(s: ServerState, op: Operation, except: Option<SessionId>)
    requires
        s.wf(),
        forall|id: SessionId| op.ends(id) ==> except == Some(id),
    ensures
        keeps_live(s, s.apply(op), op.now(), except),
{
    let now = op.now();
    match op {
        Operation::StreamSession { remote, roll, fresh, now } => {
            let w = s.sweep(roll, now);
            lemma_sweep_keeps(s, roll, now);
            assert(keeps_live(w, s.apply(op), now, except));
            lemma_steps_keep(s, w, s.apply(op), now, except);
        },
        Operation::AddListing { session_id, name, roll, fresh, now } => {
            let w = s.sweep(roll, now);
            lemma_sweep_keeps(s, roll, now);
            if let Some(caller) = id_of(session_id) {
                let v = w.validate(caller, now).0;
                lemma_validate_keeps(w, caller, now);
                lemma_steps_keep(s, w, v, now, None);
                assert(keeps_live(v, s.apply(op), now, except));
                lemma_steps_keep(s, v, s.apply(op), now, except);
            }
        },
        Operation::RemoveListing { session_id, roll, now } => {
            let w = s.sweep(roll, now);
            lemma_sweep_keeps(s, roll, now);
            if let Some(caller) = id_of(session_id) {
                let v = w.validate(caller, now).0;
                lemma_validate_keeps(w, caller, now);
                lemma_steps_keep(s, w, v, now, None);
                assert(keeps_live(v, s.apply(op), now, except));
                lemma_steps_keep(s, v, s.apply(op), now, except);
            }
        },
        Operation::GetListings { roll, now } => {
            lemma_sweep_keeps(s, roll, now);
        },
        Operation::EndSession { session_id, roll, now } => {
            let w = s.sweep(roll, now);
            lemma_sweep_keeps(s, roll, now);
            if let Some(ended) = id_of(session_id) {
                assert(op.ends(ended));
                assert(keeps_live(w, s.apply(op), now, except));
                lemma_steps_keep(s, w, s.apply(op), now, except);
            }
        },
        Operation::Join { session_id, listing_id, now } => {
            if let Some(caller) = id_of(session_id) {
                let v = s.validate(caller, now).0;
                lemma_validate_keeps(s, caller, now);
                if let Some(listing) = id_of(listing_id) {
                    if s.validate(caller, now).1 is Ok && v.id_map.contains_key(listing) {
                        lemma_validate_keeps(v, v.id_map[listing], now);
                        lemma_steps_keep(s, v, s.apply(op), now, except);
                    }
                }
            }
        },
        Operation::Stream { session, event, now } => {
            if !(event is Message) {
                assert(op.ends(session));
            }
        },
    }
}

/// Cleaning up after a session twice is cleaning up once, and cleaning up
/// after a session that does not exist changes nothing.
pub proof fn law_cleanup_is_idempotent(s: ServerState, id: SessionId)
    requires
        s.wf(),
    ensures
        s.end(id).end(id) == s.end(id),
        !s.sessions.contains_key(id) ==> s.end(id) == s,
{
    s.lemma_remove_deep_twice(set![id], set![id]);
    assert(set![id].union(set![id]) =~= set![id]);
    if !s.sessions.contains_key(id) {
        s.lemma_remove_deep_nothing(set![id]);
    }
}

/// No operation moves back the time at which a session was last heard from.
#[verifier::rlimit(40)]
pub proof fn law_last_seen_never_moves_back(s: ServerState, op: Operation, id: SessionId)
    requires
        s.wf(),
        s.sessions.contains_key(id),
        s.apply(op).sessions.contains_key(id),
    ensures
        s.apply(op).sessions[id].last_seen >= s.sessions[id].last_seen,
{
    let t = s.apply(op);
    match op {
        Operation::StreamSession { remote, roll, fresh, now } => {
            let w = s.sweep(roll, now);
            lemma_sweep_keeps(s, roll, now);
            if !w.sessions.contains_key(id) {
                assert(roll && s.is_expired(id, now));
            }
        },
        Operation::AddListing { session_id, name, roll, fresh, now } => {
            let w = s.sweep(roll, now);
            lemma_sweep_keeps(s, roll, now);
            if let Some(caller) = id_of(session_id) {
                let v = w.validate(caller, now).0;
                lemma_validate_keeps(w, caller, now);
                assert(v.sessions.contains_key(id));
                assert(w.sessions.contains_key(id));
            }
        },
        Operation::RemoveListing { session_id, roll, now } => {
            let w = s.sweep(roll, now);
            lemma_sweep_keeps(s, roll, now);
            if let Some(caller) = id_of(session_id) {
                let v = w.validate(caller, now).0;
                lemma_validate_keeps(w, caller, now);
                assert(v.sessions.contains_key(id));
                assert(w.sessions.contains_key(id));
            }
        },
        Operation::GetListings { roll, now } => {
            lemma_sweep_keeps(s, roll, now);
        },
        Operation::EndSession { session_id, roll, now } => {
            let w = s.sweep(roll, now);
            lemma_sweep_keeps(s, roll, now);
            assert(w.sessions.contains_key(id));
        },
        Operation::Join { session_id, listing_id, now } => {
            if let Some(caller) = id_of(session_id) {
                let v = s.validate(caller, now).0;
                lemma_validate_keeps(s, caller, now);
                if let Some(listing) = id_of(listing_id) {
                    if s.validate(caller, now).1 is Ok && v.id_map.contains_key(listing) {
                        lemma_validate_keeps(v, v.id_map[listing], now);
                    }
                }
            }
        },
        Operation::Stream { session, event, now } => {},
    }
}

/// A session that has not timed out when an operation is served is still
/// there afterwards, unless the operation ends that very session.
pub proof fn law_session_survives_within_timeout(s: ServerState, op: Operation, id: SessionId)
    requires
        s.wf(),
        s.is_live(id, op.now()),
        !op.ends(id),
    ensures
        s.apply(op).sessions.contains_key(id),
{
    let except: Option<SessionId> = match op {
        Operation::EndSession { session_id, .. } => id_of(session_id),
        Operation::Stream { session, event, .. } => if event is Message {
            None
        } else {
            Some(session)
        },
        _ => None,
    };
    lemma_apply_keeps_live(s, op, except);
    assert(s.is_live(id, op.now()) && except != Some(id));
}

/// A message on the stream of a session, whatever it holds, moves the time
/// at which the session was last heard from up to the time of the message,
/// and keeps the session from timing out for the length of the timeout.
pub proof fn law_message_renews_session(
    s: ServerState,
    id: SessionId,
    message: ClientStreamMessage,
    now: u64,
    later: u64,
)
    requires
        s.wf(),
        s.sessions.contains_key(id),
        later - now <= s.session_timeout,
    ensures
        s.stream_event(id, StreamEvent::Message(message), now).0.sessions[id].last_seen >= now,
        s.stream_event(id, StreamEvent::Message(message), now).0.is_live(id, later),
{
}

/// A client that sends its keepalives on time is never found timed out: the
/// next keepalive is due before the shortest timeout has passed.
pub proof fn law_steady_keepalive_never_times_out(
    s: ServerState,
    id: SessionId,
    now: u64,
    before_next: u64,
)
    requires
        s.wf(),
        s.sessions.contains_key(id),
        s.session_timeout >= Session::TIMEOUT_TIME,
        before_next <= keepalive_after(now),
    ensures
        s.stream_event(id, StreamEvent::Message(ClientStreamMessage { client_stream_enum: None }), now).0.is_live(
            id,
            before_next,
        ),
{
}

/// `AddListing`, `RemoveListing`, `AddListing` for one session: the third
/// succeeds, provided the session has not timed out by then and the
/// identifier minted for it is not in use.
pub proof fn law_listing_can_be_added_again(
    s: ServerState,
    session_id: Seq<u8>,
    name: Option<Seq<char>>,
    first: (bool, ListingId, u64),
    second: (bool, u64),
    third: (bool, ListingId, u64),
)
    requires
        s.wf(),
        s.rpc_add_listing(session_id, name, first.0, first.1, first.2).1 is Ok,
        s.rpc_add_listing(session_id, name, first.0, first.1, first.2).0.rpc_remove_listing(
            session_id,
            second.0,
            second.1,
        ).1 is Ok,
        s.rpc_add_listing(session_id, name, first.0, first.1, first.2).0.rpc_remove_listing(
            session_id,
            second.0,
            second.1,
        ).0.is_live(id_of(session_id)->0, third.2),
        !s.rpc_add_listing(session_id, name, first.0, first.1, first.2).0.rpc_remove_listing(
            session_id,
            second.0,
            second.1,
        ).0.sweep(third.0, third.2).id_map.contains_key(third.1),
    ensures
        s.rpc_add_listing(session_id, name, first.0, first.1, first.2).0.rpc_remove_listing(
            session_id,
            second.0,
            second.1,
        ).0.rpc_add_listing(session_id, name, third.0, third.1, third.2).1 == Ok::<
            ListingId,
            Rejection,
        >(third.1),
{
    let id = id_of(session_id)->0;
    let a = s.rpc_add_listing(session_id, name, first.0, first.1, first.2).0;
    lemma_apply_wf(
        s,
        Operation::AddListing { session_id, name, roll: first.0, fresh: first.1, now: first.2 },
    );
    let w = a.sweep(second.0, second.1);
    a.lemma_sweep_wf(second.0, second.1);
    w.lemma_validate_wf(id, second.1);
}

/// `RemoveListing` for a live session without a listing answers `Ok` and
/// changes nothing beyond the sweep that the request may run.
pub proof fn law_remove_without_listing_is_ok(
    s: ServerState,
    session_id: Seq<u8>,
    roll: bool,
    now: u64,
)
    requires
        s.wf(),
        id_of(session_id) is Some,
        s.is_live(id_of(session_id)->0, now),
        s.sessions[id_of(session_id)->0].listing is None,
    ensures
        s.rpc_remove_listing(session_id, roll, now).1 is Ok,
        s.rpc_remove_listing(session_id, roll, now).0 == s.sweep(roll, now),
{
}

} // verus!

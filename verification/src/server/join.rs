//! Joining a listing: the punch orders for the two peers, and what their
//! answers amount to.

use vstd::prelude::*;
use vstd::string::*;

use crate::addr::{ip_text, PublicEndpoint};
use crate::id::{id_from_bytes, SessionId};
use crate::proto::{
    Code, JoinRequest, JoinResponse, OrderView, Punch, PunchStatus, PunchStatusView, PunchView,
    ServerStreamEnum, ServerStreamMessage, ServerStreamMessageView, Status, StatusView,
};
use crate::server::state::{JoinPair, Rejection};
use crate::server::PuncherServer;

verus! {

/// The message that orders a client to punch toward `addr`.
pub open spec fn punch_order(addr: PublicEndpoint) -> ServerStreamMessageView {
    ServerStreamMessageView {
        session_id_assignment: None,
        order: Some(OrderView::Punch(PunchView { ip: ip_text(addr.ip), port: addr.port as u32 })),
    }
}

/// Writes the order to punch toward `addr`.
pub fn order_punch(addr: &PublicEndpoint) -> (r: ServerStreamMessage)
    ensures
        r@ == punch_order(*addr),
{
    ServerStreamMessage {
        session_id_assignment: None,
        server_stream_enum: Some(
            ServerStreamEnum::Punch(Punch { ip: addr.ip.to_text(), port: addr.port as u32 }),
        ),
    }
}

/// The orders of one join: which two sessions take part, and the message for
/// each.
#[derive(Debug)]
pub struct JoinOrders {
    /// The session that asked to join.
    pub joiner: SessionId,
    /// The session that owns the listing.
    pub target: SessionId,
    /// For the joiner: punch toward the target.
    pub joiner_order: ServerStreamMessage,
    /// For the target: punch toward the joiner.
    pub target_order: ServerStreamMessage,
}

impl JoinOrders {
    /// Whether these are the orders for `pair`: each peer is told to punch
    /// toward the other's public endpoint.
    pub open spec fn matches_pair(&self, pair: JoinPair) -> bool {
        &&& self.joiner == pair.joiner
        &&& self.target == pair.target
        &&& self.joiner_order@ == punch_order(pair.target_addr)
        &&& self.target_order@ == punch_order(pair.joiner_addr)
    }
}

/// What became of one punch order.
#[derive(Debug)]
pub enum OrderOutcome {
    /// The client reported how its punch ended.
    Reported(PunchStatus),
    /// The order could not be queued, or no report came, within the bound.
    TimedOut,
    /// The stream was closed.
    Closed,
}

/// The text of the status that stands for a report that never came.
pub open spec fn timeout_message() -> Seq<char> {
    "timeout"@
}

/// The status that an order's outcome counts as.
pub open spec fn status_of(outcome: OrderOutcome) -> PunchStatusView {
    match outcome {
        OrderOutcome::Reported(status) => status@,
        OrderOutcome::TimedOut => PunchStatusView {
            message: Some(timeout_message()),
            success: false,
        },
        OrderOutcome::Closed => PunchStatusView { message: None, success: false },
    }
}

/// The status that an order's outcome counts as: the client's report, or a
/// failure in its place when there is none.
pub fn punch_status(outcome: OrderOutcome) -> (r: PunchStatus)
    ensures
        r@ == status_of(outcome),
{
    match outcome {
        OrderOutcome::Reported(status) => status,
        OrderOutcome::TimedOut => PunchStatus {
            message: Some("timeout".to_owned()),
            success: false,
        },
        OrderOutcome::Closed => PunchStatus { message: None, success: false },
    }
}

/// A join whose punch failed on one side or both, with what each peer
/// reported.
#[derive(Debug)]
pub struct PunchFailed {
    pub joiner_message: Option<String>,
    pub target_message: Option<String>,
}

/// What a [`PunchFailed`] holds.
pub struct PunchFailedView {
    pub joiner_message: Option<Seq<char>>,
    pub target_message: Option<Seq<char>>,
}

impl View for PunchFailed {
    type V = PunchFailedView;

    open spec fn view(&self) -> PunchFailedView {
        PunchFailedView {
            joiner_message: match self.joiner_message {
                Some(m) => Some(m@),
                None => None,
            },
            target_message: match self.target_message {
                Some(m) => Some(m@),
                None => None,
            },
        }
    }
}

/// The words with which a failed punch is reported when neither peer gave
/// any.
pub open spec fn punch_failed_message() -> Seq<char> {
    "Punch failed."@
}

impl PunchFailedView {
    /// The message of the status: what the joiner reported, else what the
    /// target reported, else [`punch_failed_message`].
    pub open spec fn message(self) -> Seq<char> {
        match (self.joiner_message, self.target_message) {
            (Some(m), _) => m,
            (None, Some(m)) => m,
            (None, None) => punch_failed_message(),
        }
    }
}

impl PunchFailed {
    /// The status with which the failure is reported to the joiner.
    pub fn status(self) -> (r: Status)
        ensures
            r@ == (StatusView { code: Code::PunchFailed, message: self@.message() }),
    {
        let message = match (self.joiner_message, self.target_message) {
            (Some(m), _) => m,
            (None, Some(m)) => m,
            (None, None) => "Punch failed.".to_owned(),
        };
        Status { code: Code::PunchFailed, message }
    }
}

/// The answer to a join, from the statuses of the two peers: `Ok` exactly if
/// both punched through.
pub fn join_response(joiner: PunchStatus, target: PunchStatus) -> (r: Result<
    JoinResponse,
    PunchFailed,
>)
    ensures
        joiner.success && target.success ==> r is Ok,
        !(joiner.success && target.success) ==> r is Err && r->Err_0@ == (PunchFailedView {
            joiner_message: joiner@.message,
            target_message: target@.message,
        }),
{
    if joiner.success && target.success {
        Ok(JoinResponse {  })
    } else {
        Err(PunchFailed { joiner_message: joiner.message, target_message: target.message })
    }
}

impl PuncherServer {
    /// `Join`: resolves the session that asks and the owner of the listing,
    /// and writes each the order to punch toward the other. Joining changes no
    /// listing; a session found timed out on the way is removed.
    pub fn join(&mut self, request: JoinRequest, now: u64) -> (r: Result<JoinOrders, Rejection>)
        requires
            old(self)@.wf(),
        ensures
            final(self)@.wf(),
            final(self)@ == old(self)@.rpc_join(
                request.session_id@,
                request.target_listing_id@,
                now,
            ).0,
            match old(self)@.rpc_join(request.session_id@, request.target_listing_id@, now).1 {
                Ok(pair) => r is Ok && r->Ok_0.matches_pair(pair),
                Err(e) => r is Err && r->Err_0 == e,
            },
            r is Ok ==> final(self)@ == old(self)@,
    {
        let session_id = match id_from_bytes(request.session_id.as_slice()) {
            Ok(id) => id,
            Err(_) => { return Err(Rejection::InvalidSessionId); },
        };
        match self.validate(&session_id, now) {
            Err(e) => { return Err(e); },
            Ok(()) => {},
        }
        let target_listing_id = match id_from_bytes(request.target_listing_id.as_slice()) {
            Ok(id) => id,
            Err(_) => { return Err(Rejection::InvalidListingId); },
        };
        proof {
            self@.lemma_validate_wf(session_id, now);
            self@.lemma_join_wf(session_id, target_listing_id, now);
        }
        let target_session_id = match self.owner_of(&target_listing_id) {
            Some(owner) => owner,
            None => { return Err(Rejection::ListingNotFound); },
        };
        match self.validate(&target_session_id, now) {
            Err(e) => { return Err(e); },
            Ok(()) => {},
        }
        let target_addr = match self.get(&target_session_id) {
            Some(session) => *session.addr(),
            None => { return Err(Rejection::SessionNotFound); },
        };
        let addr = match self.get(&session_id) {
            Some(session) => *session.addr(),
            None => { return Err(Rejection::SessionNotFound); },
        };
        Ok(
            JoinOrders {
                joiner: session_id,
                target: target_session_id,
                joiner_order: order_punch(&target_addr),
                target_order: order_punch(&addr),
            },
        )
    }
}

} // verus!

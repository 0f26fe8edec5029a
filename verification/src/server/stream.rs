//! The bidirectional stream of a session, seen from the server: its setup
//! and what each thing that arrives on it leads to.

use vstd::prelude::*;

use crate::addr::PublicEndpoint;
use crate::id::{fresh_id, id_of, id_to_bytes, SessionId};
use crate::proto::{
    ClientStreamEnum, ClientStreamMessage, PunchStatusView, ServerStreamMessage,
    ServerStreamMessageView,
};
use crate::server::state::{Rejection, ServerState};
use crate::server::{PuncherServer, SWEEP_DENOMINATOR, SWEEP_NUMERATOR};

verus! {

/// The capacity of the two queues of a session: the one for the messages
/// that go out on its stream and the one for the reports that came in.
pub const QUEUE_CAPACITY: usize = 32;

/// Whether `message` assigns the session identifier `id` and does nothing
/// else.
pub open spec fn is_assignment(message: ServerStreamMessageView, id: SessionId) -> bool {
    &&& message.session_id_assignment is Some
    &&& id_of(message.session_id_assignment->0) == Some(id)
    &&& message.order is None
}

/// A session that has just been set up.
#[derive(Debug)]
pub struct StreamSetup {
    /// The identifier of the new session.
    pub session_id: SessionId,
    /// The message that must go out on the stream before any other: the
    /// assignment of the identifier.
    pub first: ServerStreamMessage,
}

/// What arrived from the client's end of a stream.
#[derive(Debug)]
pub enum StreamEvent {
    /// A message.
    Message(ClientStreamMessage),
    /// The end of the stream.
    Closed,
    /// An error status.
    Failed,
}

/// What the forwarder of a stream does next.
#[derive(Debug)]
pub enum StreamAction {
    /// Go on reading.
    Continue,
    /// Hand the report to the session's inbound queue, then go on reading.
    Forward(ClientStreamEnum),
    /// Stop reading and drop the session's queues.
    Stop,
}

/// What a [`StreamAction`] holds.
pub enum StreamActionView {
    Continue,
    Forward(PunchStatusView),
    Stop,
}

impl View for StreamAction {
    type V = StreamActionView;

    open spec fn view(&self) -> StreamActionView {
        match *self {
            StreamAction::Continue => StreamActionView::Continue,
            StreamAction::Forward(ClientStreamEnum::PunchStatus(status)) => StreamActionView::Forward(
                status@,
            ),
            StreamAction::Stop => StreamActionView::Stop,
        }
    }
}

impl ServerState {
    /// What the arrival of `event` on the stream of session `id` does to the
    /// registry. Any message counts as a sign of life, whatever it holds; the
    /// end of the stream and an error end the session.
    pub open spec fn stream_event(self, id: SessionId, event: StreamEvent, now: u64) -> (
        ServerState,
        StreamActionView,
    ) {
        if !self.sessions.contains_key(id) {
            (self, StreamActionView::Stop)
        } else {
            match event {
                StreamEvent::Message(message) => (
                    self.see(id, now),
                    match message@ {
                        Some(status) => StreamActionView::Forward(status),
                        None => StreamActionView::Continue,
                    },
                ),
                StreamEvent::Closed | StreamEvent::Failed => (self.end(id), StreamActionView::Stop),
            }
        }
    }
}

impl PuncherServer {
    /// Stream setup, with the outcome of the sweep's roll and the identifier
    /// for the session given. `remote_addr` is the peer address that the
    /// transport reports.
    pub fn stream_session_with(
        &mut self,
        remote_addr: Option<PublicEndpoint>,
        roll: bool,
        fresh: SessionId,
        now: u64,
    ) -> (r: Result<StreamSetup, Rejection>)
        requires
            old(self)@.wf(),
        ensures
            final(self)@.wf(),
            final(self)@ == old(self)@.rpc_stream_session(remote_addr, roll, fresh, now).0,
            match old(self)@.rpc_stream_session(remote_addr, roll, fresh, now).1 {
                Ok(id) => r is Ok && r->Ok_0.session_id == id && is_assignment(r->Ok_0.first@, id),
                Err(e) => r is Err && r->Err_0 == e,
            },
    {
        let _ = self.sweep(roll, now);
        let addr = match remote_addr {
            Some(addr) => addr,
            None => { return Err(Rejection::NoPeerAddress); },
        };
        match self.insert_session(fresh, addr, now) {
            Ok(id) => Ok(
                StreamSetup {
                    session_id: id,
                    first: ServerStreamMessage {
                        session_id_assignment: Some(id_to_bytes(id)),
                        server_stream_enum: None,
                    },
                },
            ),
            Err(e) => Err(e),
        }
    }

    /// Stream setup: registers a session for the peer under a freshly minted
    /// identifier and writes the message that assigns it. The request may
    /// first sweep the timed-out sessions.
    pub fn stream_session(&mut self, remote_addr: Option<PublicEndpoint>, now: u64) -> (r: Result<
        StreamSetup,
        Rejection,
    >)
        requires
            old(self)@.wf(),
        ensures
            final(self)@.wf(),
            exists|roll: bool, fresh: SessionId|
                {
                    &&& final(self)@ == (#[trigger] old(self)@.rpc_stream_session(
                        remote_addr,
                        roll,
                        fresh,
                        now,
                    )).0
                    &&& match old(self)@.rpc_stream_session(remote_addr, roll, fresh, now).1 {
                        Ok(id) => r is Ok && r->Ok_0.session_id == id && is_assignment(
                            r->Ok_0.first@,
                            id,
                        ),
                        Err(e) => r is Err && r->Err_0 == e,
                    }
                },
    {
        let roll = rand::random_ratio(SWEEP_NUMERATOR, SWEEP_DENOMINATOR);
        let fresh = fresh_id();
        self.stream_session_with(remote_addr, roll, fresh, now)
    }

    /// Takes in what arrived on the stream of a session and says what the
    /// forwarder does next.
    pub fn handle_stream(&mut self, session_id: &SessionId, event: StreamEvent, now: u64) -> (r:
        StreamAction)
        requires
            old(self)@.wf(),
        ensures
            final(self)@.wf(),
            final(self)@ == old(self)@.stream_event(*session_id, event, now).0,
            r@ == old(self)@.stream_event(*session_id, event, now).1,
    {
        proof {
            self@.lemma_see_wf(*session_id, now);
            self@.lemma_remove_deep_wf(set![*session_id]);
        }
        if self.get(session_id).is_none() {
            return StreamAction::Stop;
        }
        match event {
            StreamEvent::Message(message) => {
                self.see(session_id, now);
                match message.client_stream_enum {
                    Some(report) => StreamAction::Forward(report),
                    None => StreamAction::Continue,
                }
            },
            StreamEvent::Closed => {
                self.cleanup(session_id);
                StreamAction::Stop
            },
            StreamEvent::Failed => {
                self.cleanup(session_id);
                StreamAction::Stop
            },
        }
    }
}

} // verus!

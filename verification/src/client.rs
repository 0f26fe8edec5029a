//! The client of the rendezvous server: its session, the requests it makes
//! and how it reads the answers.
//!
//! The client decides; its driver owns the transport. For each operation the
//! client writes the request, the driver sends it under the bound
//! [`TIMEOUT`](crate::TIMEOUT) and hands back what came of it, and the client
//! reads that.

use vstd::prelude::*;
use vstd::string::*;

pub mod asyncflag;
pub mod engine;
pub mod session;
pub mod stream;

use crate::id::{id_from_bytes, id_of, id_to_bytes, ListingId, SessionId};
use crate::proto::{
    AddListingRequest, AddListingResponse, Code, EndSessionRequest, GetListingsRequest,
    GetListingsResponse, JoinRequest, JoinResponse, Listing as TonicListing,
    ListingNoId as TonicListingNoId, RemoveListingRequest, RemoveListingResponse,
    ServerStreamMessage, Status, StatusView,
};
use crate::server::listing::{listing_from_wire, ListingState, RustListing, RustListingNoId};
use session::Session;

pub use engine::{punch, punch_nat};

verus! {

/// What came of a unary call that the driver made under the bound.
#[derive(Debug)]
pub enum Reply<T> {
    /// The server answered.
    Answer(T),
    /// The call ended with a status.
    Status(Status),
    /// No answer came within the bound.
    TimedOut,
}

/// What came of waiting for the first message of a stream.
#[derive(Debug)]
pub enum FirstMessage {
    /// A message arrived.
    Message(ServerStreamMessage),
    /// The stream ended before any message.
    Closed,
    /// The stream reported a status.
    Status(Status),
    /// No message came within the bound.
    TimedOut,
}

/// Why an operation of the client failed.
#[derive(Debug)]
pub enum ClientError {
    /// The operation needs a session and none has been started.
    NoSession,
    /// No answer came within the bound.
    Timeout,
    /// The server answered with a status.
    Rpc(Status),
    /// The stream ended before its first message.
    NoFirstMessage,
    /// The first message of the stream assigns no session identifier.
    NoAssignment,
    /// The session identifier assigned is not sixteen bytes long.
    BadSessionId,
    /// The listing identifier returned is not sixteen bytes long.
    BadListingId,
}

/// What a [`ClientError`] holds.
pub enum ClientErrorView {
    NoSession,
    Timeout,
    Rpc(StatusView),
    NoFirstMessage,
    NoAssignment,
    BadSessionId,
    BadListingId,
}

impl View for ClientError {
    type V = ClientErrorView;

    open spec fn view(&self) -> ClientErrorView {
        match *self {
            ClientError::NoSession => ClientErrorView::NoSession,
            ClientError::Timeout => ClientErrorView::Timeout,
            ClientError::Rpc(status) => ClientErrorView::Rpc(status@),
            ClientError::NoFirstMessage => ClientErrorView::NoFirstMessage,
            ClientError::NoAssignment => ClientErrorView::NoAssignment,
            ClientError::BadSessionId => ClientErrorView::BadSessionId,
            ClientError::BadListingId => ClientErrorView::BadListingId,
        }
    }
}

/// The kinds of failure that the host tells apart.
#[derive(Clone, Copy, Debug, PartialEq, Eq, Structural)]
pub enum ErrorKind {
    /// The connection or the server failed: the session is dead.
    Transport,
    /// A message was malformed: fatal for the operation.
    Protocol,
    /// A listing or session is absent, or a listing is there already: the
    /// host can recover.
    Semantic,
    /// The bound ran out: the operation may be tried again.
    Timeout,
    /// The hole punch failed: both sessions live on and may try again.
    PunchFailure,
}

impl ErrorKind {
    /// Whether the host can go on with its session after a failure of this
    /// kind.
    pub open spec fn spec_recoverable(self) -> bool {
        self is Semantic || self is Timeout || self is PunchFailure
    }

    /// Whether the host can go on with its session after a failure of this
    /// kind.
    #[verifier::when_used_as_spec(spec_recoverable)]
    pub fn recoverable(self) -> (r: bool)
        ensures
            r == self.spec_recoverable(),
    {
        match self {
            ErrorKind::Semantic | ErrorKind::Timeout | ErrorKind::PunchFailure => true,
            ErrorKind::Transport | ErrorKind::Protocol => false,
        }
    }
}

/// The kind of failure that a status code stands for.
pub open spec fn kind_of_code(code: Code) -> ErrorKind {
    match code {
        Code::InvalidArgument => ErrorKind::Protocol,
        Code::NotFound | Code::AlreadyExists => ErrorKind::Semantic,
        Code::DeadlineExceeded => ErrorKind::Timeout,
        Code::PunchFailed => ErrorKind::PunchFailure,
        Code::Internal | Code::Other => ErrorKind::Transport,
    }
}

impl ClientErrorView {
    /// The kind of the failure.
    pub open spec fn kind(self) -> ErrorKind {
        match self {
            ClientErrorView::NoSession => ErrorKind::Semantic,
            ClientErrorView::Timeout => ErrorKind::Timeout,
            ClientErrorView::Rpc(status) => kind_of_code(status.code),
            ClientErrorView::NoFirstMessage => ErrorKind::Transport,
            ClientErrorView::NoAssignment
            | ClientErrorView::BadSessionId
            | ClientErrorView::BadListingId => ErrorKind::Protocol,
        }
    }

    /// The words in which the failure is told to the host.
    pub open spec fn message(self) -> Seq<char> {
        match self {
            ClientErrorView::NoSession => "Not connected"@,
            ClientErrorView::Timeout => "Timeout waiting for the server"@,
            ClientErrorView::Rpc(status) => "Error status: "@ + status.message,
            ClientErrorView::NoFirstMessage => "First received message had no contents"@,
            ClientErrorView::NoAssignment => "First received message had no session_id"@,
            ClientErrorView::BadSessionId => "Received bad session_id from server"@,
            ClientErrorView::BadListingId => "Received bad listing_id from server"@,
        }
    }
}

impl ClientError {
    /// The kind of the failure.
    pub fn kind(&self) -> (r: ErrorKind)
        ensures
            r == self@.kind(),
    {
        match self {
            ClientError::NoSession => ErrorKind::Semantic,
            ClientError::Timeout => ErrorKind::Timeout,
            ClientError::Rpc(status) => match status.code {
                Code::InvalidArgument => ErrorKind::Protocol,
                Code::NotFound | Code::AlreadyExists => ErrorKind::Semantic,
                Code::DeadlineExceeded => ErrorKind::Timeout,
                Code::PunchFailed => ErrorKind::PunchFailure,
                Code::Internal | Code::Other => ErrorKind::Transport,
            },
            ClientError::NoFirstMessage => ErrorKind::Transport,
            ClientError::NoAssignment
            | ClientError::BadSessionId
            | ClientError::BadListingId => ErrorKind::Protocol,
        }
    }

    /// The words in which the failure is told to the host.
    pub fn message(&self) -> (r: String)
        ensures
            r@ == self@.message(),
    {
        match self {
            ClientError::NoSession => "Not connected".to_owned(),
            ClientError::Timeout => "Timeout waiting for the server".to_owned(),
            ClientError::Rpc(status) => "Error status: ".to_owned().concat(status.message.as_str()),
            ClientError::NoFirstMessage => "First received message had no contents".to_owned(),
            ClientError::NoAssignment => "First received message had no session_id".to_owned(),
            ClientError::BadSessionId => "Received bad session_id from server".to_owned(),
            ClientError::BadListingId => "Received bad listing_id from server".to_owned(),
        }
    }
}

/// What the first message of a stream amounts to: the session identifier
/// that it assigns, or why it assigns none. The message must carry the
/// assignment; anything else is a breach of the protocol.
pub open spec fn assignment_of(first: FirstMessage) -> Result<SessionId, ClientErrorView> {
    match first {
        FirstMessage::TimedOut => Err(ClientErrorView::Timeout),
        FirstMessage::Status(status) => Err(ClientErrorView::Rpc(status@)),
        FirstMessage::Closed => Err(ClientErrorView::NoFirstMessage),
        FirstMessage::Message(message) => match message@.session_id_assignment {
            None => Err(ClientErrorView::NoAssignment),
            Some(bytes) => match id_of(bytes) {
                None => Err(ClientErrorView::BadSessionId),
                Some(id) => Ok(id),
            },
        },
    }
}

/// What the answer to a call amounts to, before it is looked into.
pub open spec fn answer_of<T>(reply: Reply<T>) -> Result<T, ClientErrorView> {
    match reply {
        Reply::Answer(answer) => Ok(answer),
        Reply::Status(status) => Err(ClientErrorView::Rpc(status@)),
        Reply::TimedOut => Err(ClientErrorView::Timeout),
    }
}

/// The listings of a directory that can be read, in the order in which they
/// stand; the others are left out.
pub open spec fn readable(entries: Seq<TonicListing>) -> Seq<ListingState>
    decreases entries.len(),
{
    if entries.len() == 0 {
        Seq::empty()
    } else {
        match listing_from_wire(entries.last()@.id, entries.last()@.name) {
            Ok(listing) => readable(entries.drop_last()).push(listing),
            Err(_) => readable(entries.drop_last()),
        }
    }
}

/// What each listing of a sequence holds.
pub open spec fn listing_states(listings: Seq<RustListing>) -> Seq<ListingState> {
    Seq::new(listings.len(), |i: int| listings[i]@)
}

/// The client: it has a session or it has none.
#[derive(Debug)]
pub struct Client {
    session: Option<Session>,
}

impl View for Client {
    type V = Option<SessionId>;

    closed spec fn view(&self) -> Option<SessionId> {
        match self.session {
            Some(session) => Some(session@),
            None => None,
        }
    }
}

impl Client {
    /// A client without a session.
    pub fn new() -> (r: Self)
        ensures
            r@ is None,
    {
        Self { session: None }
    }

    pub fn session(&self) -> (r: &Option<Session>)
        ensures
            match *r {
                Some(session) => self@ == Some(session@),
                None => self@ is None,
            },
    {
        &self.session
    }

    /// Ends the session, if there is one, and writes the farewell for the
    /// server. The driver sends it as best it can and cancels whatever runs
    /// for the session. Ending twice is ending once.
    pub fn end_session(&mut self) -> (r: Option<EndSessionRequest>)
        ensures
            final(self)@ is None,
            match old(self)@ {
                Some(id) => r is Some && id_of(r->0.session_id@) == Some(id),
                None => r is None,
            },
    {
        match self.session.take() {
            Some(session) => Some(EndSessionRequest { session_id: id_to_bytes(session.end()) }),
            None => None,
        }
    }

    /// Starts the session that the first message of a stream assigns. If the
    /// message assigns none, the client is left as it was.
    pub fn start_session(&mut self, first: FirstMessage) -> (r: Result<SessionId, ClientError>)
        ensures
            match assignment_of(first) {
                Ok(id) => r == Ok::<SessionId, ClientError>(id) && final(self)@ == Some(id),
                Err(e) => r is Err && r->Err_0@ == e && final(self)@ == old(self)@,
            },
    {
        let message = match first {
            FirstMessage::TimedOut => { return Err(ClientError::Timeout); },
            FirstMessage::Status(status) => { return Err(ClientError::Rpc(status)); },
            FirstMessage::Closed => { return Err(ClientError::NoFirstMessage); },
            FirstMessage::Message(message) => message,
        };
        let bytes = match message.session_id_assignment {
            Some(bytes) => bytes,
            None => { return Err(ClientError::NoAssignment); },
        };
        let session_id = match id_from_bytes(bytes.as_slice()) {
            Ok(id) => id,
            Err(_) => { return Err(ClientError::BadSessionId); },
        };
        self.session = Some(Session::start(session_id));
        Ok(session_id)
    }

    /// The identifier of the session in its wire form.
    fn session_id(&self) -> (r: Result<Vec<u8>, ClientError>)
        ensures
            match self@ {
                Some(id) => r is Ok && id_of(r->Ok_0@) == Some(id),
                None => r is Err && r->Err_0@ == ClientErrorView::NoSession,
            },
    {
        match &self.session {
            Some(session) => Ok(session.id()),
            None => Err(ClientError::NoSession),
        }
    }

    /// Writes the request to create a listing for the session.
    pub fn create_listing(&self, listing: RustListingNoId) -> (r: Result<
        AddListingRequest,
        ClientError,
    >)
        ensures
            match self@ {
                Some(id) => r is Ok && id_of(r->Ok_0.session_id@) == Some(id) && r->Ok_0.name()
                    == Some(listing@),
                None => r is Err && r->Err_0@ == ClientErrorView::NoSession,
            },
    {
        match self.session_id() {
            Ok(session_id) => Ok(
                AddListingRequest { listing: Some(TonicListingNoId::from(listing)), session_id },
            ),
            Err(e) => Err(e),
        }
    }

    /// Reads the answer to [`Client::create_listing`]: the identifier of the
    /// new listing.
    pub fn listing_created(reply: Reply<AddListingResponse>) -> (r: Result<ListingId, ClientError>)
        ensures
            match answer_of(reply) {
                Ok(answer) => match id_of(answer.listing_id@) {
                    Some(id) => r == Ok::<ListingId, ClientError>(id),
                    None => r is Err && r->Err_0@ == ClientErrorView::BadListingId,
                },
                Err(e) => r is Err && r->Err_0@ == e,
            },
    {
        let answer = match reply {
            Reply::Answer(answer) => answer,
            Reply::Status(status) => { return Err(ClientError::Rpc(status)); },
            Reply::TimedOut => { return Err(ClientError::Timeout); },
        };
        match id_from_bytes(answer.listing_id.as_slice()) {
            Ok(id) => Ok(id),
            Err(_) => Err(ClientError::BadListingId),
        }
    }

    /// Writes the request to remove the session's listing.
    pub fn remove_listing(&self) -> (r: Result<RemoveListingRequest, ClientError>)
        ensures
            match self@ {
                Some(id) => r is Ok && id_of(r->Ok_0.session_id@) == Some(id),
                None => r is Err && r->Err_0@ == ClientErrorView::NoSession,
            },
    {
        match self.session_id() {
            Ok(session_id) => Ok(RemoveListingRequest { session_id }),
            Err(e) => Err(e),
        }
    }

    /// Reads the answer to [`Client::remove_listing`].
    pub fn listing_removed(reply: Reply<RemoveListingResponse>) -> (r: Result<(), ClientError>)
        ensures
            match answer_of(reply) {
                Ok(_) => r is Ok,
                Err(e) => r is Err && r->Err_0@ == e,
            },
    {
        match reply {
            Reply::Answer(_) => Ok(()),
            Reply::Status(status) => Err(ClientError::Rpc(status)),
            Reply::TimedOut => Err(ClientError::Timeout),
        }
    }

    /// Writes the request for the directory. It needs no session.
    pub fn get_listings(&self) -> (r: GetListingsRequest)
        ensures
            r == (GetListingsRequest {  }),
    {
        GetListingsRequest {  }
    }

    /// Reads the answer to [`Client::get_listings`]: the listings that can be
    /// read, in the order in which they came. One that cannot be read is left
    /// out and the others still count.
    pub fn listings_received(reply: Reply<GetListingsResponse>) -> (r: Result<
        Vec<RustListing>,
        ClientError,
    >)
        ensures
            match answer_of(reply) {
                Ok(answer) => r is Ok && listing_states(r->Ok_0@) == readable(answer.listings@),
                Err(e) => r is Err && r->Err_0@ == e,
            },
    {
        let answer = match reply {
            Reply::Answer(answer) => answer,
            Reply::Status(status) => { return Err(ClientError::Rpc(status)); },
            Reply::TimedOut => { return Err(ClientError::Timeout); },
        };
        let mut listings: Vec<RustListing> = Vec::new();
        let mut i: usize = 0;
        assert(answer.listings@.take(0) =~= Seq::<TonicListing>::empty());
        assert(listing_states(listings@) =~= Seq::<ListingState>::empty());
        while i < answer.listings.len()
            invariant
                i <= answer.listings.len(),
                listing_states(listings@) == readable(answer.listings@.take(i as int)),
            decreases answer.listings.len() - i,
        {
            let ghost before = listings@;
            assert(answer.listings@.take(i + 1).drop_last() =~= answer.listings@.take(i as int));
            match RustListing::from_packet(&answer.listings[i]) {
                Ok(listing) => {
                    listings.push(listing);
                    assert(listing_states(listings@) =~= listing_states(before).push(listing@));
                },
                Err(_) => {},
            }
            i += 1;
        }
        assert(answer.listings@.take(i as int) =~= answer.listings@);
        Ok(listings)
    }

    /// Writes the request to join a listing.
    pub fn join(&self, listing_id: ListingId) -> (r: Result<JoinRequest, ClientError>)
        ensures
            match self@ {
                Some(id) => r is Ok && id_of(r->Ok_0.session_id@) == Some(id) && id_of(
                    r->Ok_0.target_listing_id@,
                ) == Some(listing_id),
                None => r is Err && r->Err_0@ == ClientErrorView::NoSession,
            },
    {
        match self.session_id() {
            Ok(session_id) => Ok(
                JoinRequest { session_id, target_listing_id: id_to_bytes(listing_id) },
            ),
            Err(e) => Err(e),
        }
    }

    /// Reads the answer to [`Client::join`]. On `Ok` the endpoint of the peer
    /// follows on the stream of joined peers.
    pub fn joined(reply: Reply<JoinResponse>) -> (r: Result<(), ClientError>)
        ensures
            match answer_of(reply) {
                Ok(_) => r is Ok,
                Err(e) => r is Err && r->Err_0@ == e,
            },
    {
        match reply {
            Reply::Answer(_) => Ok(()),
            Reply::Status(status) => Err(ClientError::Rpc(status)),
            Reply::TimedOut => Err(ClientError::Timeout),
        }
    }
}

} // verus!

//! Shapes of the messages that cross the wire.
//!
//! Identifiers travel as byte strings, addresses as text and ports as
//! thirty-two-bit numbers. A message holds what arrived, which may be
//! malformed; the server and client modules say how each is read.

use vstd::prelude::*;

verus! {

/// Status codes of the RPC surface.
#[derive(Clone, Copy, Debug, PartialEq, Eq, Structural)]
pub enum Code {
    InvalidArgument,
    NotFound,
    AlreadyExists,
    Internal,
    DeadlineExceeded,
    /// A join whose hole punch failed on one side or both.
    PunchFailed,
    /// Any other status that the transport reports.
    Other,
}

/// A status with which an RPC ends in place of an answer.
#[derive(Clone, Debug)]
pub struct Status {
    pub code: Code,
    pub message: String,
}

/// What a [`Status`] holds.
pub struct StatusView {
    pub code: Code,
    pub message: Seq<char>,
}

impl View for Status {
    type V = StatusView;

    open spec fn view(&self) -> StatusView {
        StatusView { code: self.code, message: self.message@ }
    }
}

/// A listing as its creator describes it: without an identifier.
#[derive(Clone, Debug)]
pub struct ListingNoId {
    pub name: String,
}

/// A listing as the directory hands it out.
#[derive(Clone, Debug)]
pub struct Listing {
    pub id: Vec<u8>,
    pub listing_no_id: Option<ListingNoId>,
}

/// What a [`Listing`] holds.
pub struct ListingView {
    pub id: Seq<u8>,
    pub name: Option<Seq<char>>,
}

impl View for ListingNoId {
    type V = Seq<char>;

    open spec fn view(&self) -> Seq<char> {
        self.name@
    }
}

impl View for Listing {
    type V = ListingView;

    open spec fn view(&self) -> ListingView {
        ListingView {
            id: self.id@,
            name: name_of(self.listing_no_id),
        }
    }
}

#[derive(Clone, Debug)]
pub struct AddListingRequest {
    pub session_id: Vec<u8>,
    pub listing: Option<ListingNoId>,
}

/// The name that an optional inner listing holds.
pub open spec fn name_of(listing: Option<ListingNoId>) -> Option<Seq<char>> {
    match listing {
        Some(inner) => Some(inner@),
        None => None,
    }
}

impl AddListingRequest {
    /// The name of the listing that the request carries, if it carries one.
    pub open spec fn name(&self) -> Option<Seq<char>> {
        name_of(self.listing)
    }
}

#[derive(Clone, Debug)]
pub struct AddListingResponse {
    pub listing_id: Vec<u8>,
}

#[derive(Clone, Debug)]
pub struct RemoveListingRequest {
    pub session_id: Vec<u8>,
}

#[derive(Clone, Copy, Debug, PartialEq, Eq, Structural)]
pub struct RemoveListingResponse {}

#[derive(Clone, Copy, Debug, PartialEq, Eq, Structural)]
pub struct GetListingsRequest {}

#[derive(Clone, Debug)]
pub struct GetListingsResponse {
    pub listings: Vec<Listing>,
}

#[derive(Clone, Debug)]
pub struct JoinRequest {
    pub session_id: Vec<u8>,
    pub target_listing_id: Vec<u8>,
}

#[derive(Clone, Copy, Debug, PartialEq, Eq, Structural)]
pub struct JoinResponse {}

#[derive(Clone, Debug)]
pub struct EndSessionRequest {
    pub session_id: Vec<u8>,
}

#[derive(Clone, Copy, Debug, PartialEq, Eq, Structural)]
pub struct EndSessionResponse {}

/// Order to start hole punching toward an endpoint.
#[derive(Clone, Debug)]
pub struct Punch {
    pub ip: String,
    pub port: u32,
}

/// What a [`Punch`] holds.
pub struct PunchView {
    pub ip: Seq<char>,
    pub port: u32,
}

impl View for Punch {
    type V = PunchView;

    open spec fn view(&self) -> PunchView {
        PunchView { ip: self.ip@, port: self.port }
    }
}

/// Order to fall back to a relay. The shape is reserved; no relay exists.
#[derive(Clone, Copy, Debug, PartialEq, Eq, Structural)]
pub struct Proxy {}

/// How a punch attempt ended, as the client reports it.
#[derive(Clone, Debug)]
pub struct PunchStatus {
    pub message: Option<String>,
    pub success: bool,
}

/// What a [`PunchStatus`] holds.
pub struct PunchStatusView {
    pub message: Option<Seq<char>>,
    pub success: bool,
}

impl View for PunchStatus {
    type V = PunchStatusView;

    open spec fn view(&self) -> PunchStatusView {
        PunchStatusView {
            message: match self.message {
                Some(m) => Some(m@),
                None => None,
            },
            success: self.success,
        }
    }
}

/// The orders that the server sends on the stream.
#[derive(Clone, Debug)]
pub enum ServerStreamEnum {
    Punch(Punch),
    Proxy(Proxy),
}

/// What a [`ServerStreamEnum`] holds.
pub enum OrderView {
    Punch(PunchView),
    Proxy,
}

impl View for ServerStreamEnum {
    type V = OrderView;

    open spec fn view(&self) -> OrderView {
        match *self {
            ServerStreamEnum::Punch(p) => OrderView::Punch(p@),
            ServerStreamEnum::Proxy(_) => OrderView::Proxy,
        }
    }
}

/// One message from the server on the stream.
#[derive(Clone, Debug)]
pub struct ServerStreamMessage {
    pub session_id_assignment: Option<Vec<u8>>,
    pub server_stream_enum: Option<ServerStreamEnum>,
}

/// What a [`ServerStreamMessage`] holds.
pub struct ServerStreamMessageView {
    pub session_id_assignment: Option<Seq<u8>>,
    pub order: Option<OrderView>,
}

impl View for ServerStreamMessage {
    type V = ServerStreamMessageView;

    open spec fn view(&self) -> ServerStreamMessageView {
        ServerStreamMessageView {
            session_id_assignment: match self.session_id_assignment {
                Some(bytes) => Some(bytes@),
                None => None,
            },
            order: match self.server_stream_enum {
                Some(order) => Some(order@),
                None => None,
            },
        }
    }
}

/// What the client reports on the stream.
#[derive(Clone, Debug)]
pub enum ClientStreamEnum {
    PunchStatus(PunchStatus),
}

/// One message from the client on the stream. With nothing in it, it is a
/// keepalive.
#[derive(Clone, Debug)]
pub struct ClientStreamMessage {
    pub client_stream_enum: Option<ClientStreamEnum>,
}

/// What a [`ClientStreamMessage`] holds: the status it reports, or nothing.
impl View for ClientStreamMessage {
    type V = Option<PunchStatusView>;

    open spec fn view(&self) -> Option<PunchStatusView> {
        match self.client_stream_enum {
            Some(ClientStreamEnum::PunchStatus(status)) => Some(status@),
            None => None,
        }
    }
}

} // verus!

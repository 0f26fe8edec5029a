//! One session, seen from the client: its identifier, the keepalive, and what
//! each message from the server leads to.

use vstd::prelude::*;
use vstd::string::*;

use crate::addr::{endpoint_of, narrow_port, parse_ip, AddrError, PublicEndpoint};
use crate::id::{id_of, id_to_bytes, SessionId};
use crate::proto::{
    ClientStreamEnum, ClientStreamMessage, OrderView, PunchStatus, PunchStatusView,
    ServerStreamEnum, ServerStreamMessage,
};

verus! {

/// How long the client waits between two keepalives. It is shorter than the
/// server's shortest session timeout.
pub const KEEPALIVE_INTERVAL: u64 = 55_000;

/// A session that the server has assigned.
#[derive(Debug)]
pub struct Session {
    session_id: SessionId,
}

impl View for Session {
    type V = SessionId;

    closed spec fn view(&self) -> SessionId {
        self.session_id
    }
}

impl Session {
    /// The session with the identifier that the server assigned.
    pub fn start(session_id: SessionId) -> (r: Self)
        ensures
            r@ == session_id,
    {
        Self { session_id }
    }

    pub fn uuid(&self) -> (r: &SessionId)
        ensures
            *r == self@,
    {
        &self.session_id
    }

    /// The identifier in its wire form.
    pub fn id(&self) -> (r: Vec<u8>)
        ensures
            id_of(r@) == Some(self@),
    {
        id_to_bytes(self.session_id)
    }

    /// Ends the session and hands back its identifier, for the farewell to
    /// the server. A session that has ended can order nothing more.
    pub fn end(self) -> (r: SessionId)
        ensures
            r == self@,
    {
        self.session_id
    }
}

/// The keepalive: a message with nothing in it.
pub fn keepalive() -> (r: ClientStreamMessage)
    ensures
        r@ is None,
{
    ClientStreamMessage { client_stream_enum: None }
}

/// The time [`KEEPALIVE_INTERVAL`] after `now`, or the end of time.
pub open spec fn keepalive_after(now: u64) -> u64 {
    if now + KEEPALIVE_INTERVAL <= u64::MAX {
        (now + KEEPALIVE_INTERVAL) as u64
    } else {
        u64::MAX
    }
}

/// When the keepalive after the one sent at `now` is due.
pub fn next_keepalive(now: u64) -> (r: u64)
    ensures
        r == keepalive_after(now),
{
    now.saturating_add(KEEPALIVE_INTERVAL)
}

/// Reads the endpoint of a punch order: the text of the address, then the
/// port.
pub fn parse_addr(ip: &str, port: u32) -> (r: Result<PublicEndpoint, AddrError>)
    ensures
        r == endpoint_of(ip@, port),
{
    let ip = match parse_ip(ip) {
        Ok(ip) => ip,
        Err(e) => { return Err(e); },
    };
    let port = match narrow_port(port) {
        Ok(port) => port,
        Err(e) => { return Err(e); },
    };
    Ok(PublicEndpoint { ip, port })
}

/// What arrived from the server's end of the stream.
#[derive(Debug)]
pub enum ServerEvent {
    /// A message.
    Message(ServerStreamMessage),
    /// The end of the stream.
    Closed,
    /// An error status. The stream goes on.
    Failed,
}

/// What the dispatcher does next.
#[derive(Debug)]
pub enum Action {
    /// Go on reading.
    Continue,
    /// Punch toward the endpoint, report the outcome with [`punch_report`],
    /// then go on reading.
    Punch(PublicEndpoint),
    /// Send the report, then go on reading.
    Reply(ClientStreamMessage),
    /// The order is of a kind that is reserved and not carried out. Go on
    /// reading.
    Unsupported,
    /// Stop reading.
    Stop,
}

/// What an [`Action`] holds.
pub enum ActionView {
    Continue,
    Punch(PublicEndpoint),
    Reply(Option<PunchStatusView>),
    Unsupported,
    Stop,
}

impl View for Action {
    type V = ActionView;

    open spec fn view(&self) -> ActionView {
        match *self {
            Action::Continue => ActionView::Continue,
            Action::Punch(addr) => ActionView::Punch(addr),
            Action::Reply(message) => ActionView::Reply(message@),
            Action::Unsupported => ActionView::Unsupported,
            Action::Stop => ActionView::Stop,
        }
    }
}

/// The words that report a punch order whose address could not be read.
pub open spec fn bad_addr_message(e: AddrError) -> Seq<char> {
    match e {
        AddrError::BadIp => "Bad punch addr: Unable to parse ip"@,
        AddrError::BadPort => "Bad punch addr: Unable to coerce port"@,
    }
}

/// The words that report a punch that failed.
pub open spec fn punch_error_message(e: PunchError) -> Seq<char> {
    match e {
        PunchError::Socket => "Unable to punch: socket error"@,
        PunchError::Timeout => "Unable to punch: Punch timeout"@,
        PunchError::Cancelled => "Unable to punch: cancelled"@,
    }
}

/// Why a punch failed.
#[derive(Clone, Copy, Debug, PartialEq, Eq, Structural)]
pub enum PunchError {
    /// The socket could not be bound or connected, or receiving failed.
    Socket,
    /// No datagram arrived within the bound.
    Timeout,
    /// The session ended while the punch was under way.
    Cancelled,
}

/// How a punch ended.
#[derive(Clone, Copy, Debug, PartialEq, Eq, Structural)]
pub enum PunchResult {
    /// A datagram arrived from the peer: the way is open in both directions.
    Success,
    Failure(PunchError),
}

/// What one thing arriving from the server leads to.
pub open spec fn dispatch(event: ServerEvent) -> ActionView {
    match event {
        ServerEvent::Closed => ActionView::Stop,
        ServerEvent::Failed => ActionView::Continue,
        ServerEvent::Message(message) => match message@.order {
            None => ActionView::Continue,
            Some(OrderView::Proxy) => ActionView::Unsupported,
            Some(OrderView::Punch(punch)) => match endpoint_of(punch.ip, punch.port) {
                Ok(addr) => ActionView::Punch(addr),
                Err(e) => ActionView::Reply(
                    Some(PunchStatusView { message: Some(bad_addr_message(e)), success: false }),
                ),
            },
        },
    }
}

/// Takes in what arrived from the server and says what the dispatcher does
/// next: a punch order with a readable address starts a punch, one with an
/// unreadable address is answered with a failure, the end of the stream
/// stops the dispatcher, and anything else is passed over.
pub fn handle_stream(event: ServerEvent) -> (r: Action)
    ensures
        r@ == dispatch(event),
{
    match event {
        ServerEvent::Closed => Action::Stop,
        ServerEvent::Failed => Action::Continue,
        ServerEvent::Message(message) => match message.server_stream_enum {
            None => Action::Continue,
            Some(ServerStreamEnum::Proxy(_)) => Action::Unsupported,
            Some(ServerStreamEnum::Punch(punch)) => match parse_addr(
                punch.ip.as_str(),
                punch.port,
            ) {
                Ok(addr) => Action::Punch(addr),
                Err(e) => {
                    let message = match e {
                        AddrError::BadIp => "Bad punch addr: Unable to parse ip",
                        AddrError::BadPort => "Bad punch addr: Unable to coerce port",
                    };
                    Action::Reply(
                        ClientStreamMessage {
                            client_stream_enum: Some(
                                ClientStreamEnum::PunchStatus(
                                    PunchStatus { message: Some(message.to_owned()), success: false },
                                ),
                            ),
                        },
                    )
                },
            },
        },
    }
}

/// What a finished punch is reported as.
pub open spec fn report_of(outcome: PunchResult) -> PunchStatusView {
    match outcome {
        PunchResult::Success => PunchStatusView { message: None, success: true },
        PunchResult::Failure(e) => PunchStatusView {
            message: Some(punch_error_message(e)),
            success: false,
        },
    }
}

/// What follows a punch toward `addr`: the report for the server and, if the
/// punch went through, the endpoint of the peer that has joined, for the
/// host.
pub fn punch_report(addr: PublicEndpoint, outcome: PunchResult) -> (r: (
    Option<PublicEndpoint>,
    ClientStreamMessage,
))
    ensures
        r.0 == if outcome is Success {
            Some(addr)
        } else {
            None
        },
        r.1@ == Some(report_of(outcome)),
{
    match outcome {
        PunchResult::Success => (
            Some(addr),
            ClientStreamMessage {
                client_stream_enum: Some(
                    ClientStreamEnum::PunchStatus(PunchStatus { message: None, success: true }),
                ),
            },
        ),
        PunchResult::Failure(e) => {
            let message = match e {
                PunchError::Socket => "Unable to punch: socket error",
                PunchError::Timeout => "Unable to punch: Punch timeout",
                PunchError::Cancelled => "Unable to punch: cancelled",
            };
            (
                None,
                ClientStreamMessage {
                    client_stream_enum: Some(
                        ClientStreamEnum::PunchStatus(
                            PunchStatus { message: Some(message.to_owned()), success: false },
                        ),
                    ),
                },
            )
        },
    }
}

} // verus!

//! The face that the client shows its host: commands that the host gives,
//! values that change behind its back as the commands are carried out, and
//! the signals that tell the host of a change on its polling tick.

use vstd::prelude::*;
use vstd::string::*;

pub mod asyncvalue;
pub mod listing;

use crate::addr::{ip_text, parse_ip, AddrError, IpAddress, PublicEndpoint};
use crate::client::{ClientError, ClientErrorView};
use crate::id::{id_text, id_to_string, parse_id, uuid_parsed, IdError, ListingId};
use crate::server::listing::{ListingState, RustListing};
use asyncvalue::AsyncValue;

verus! {

/// The values that change as the host's commands are carried out.
#[derive(Debug)]
pub struct HostState {
    errors: String,
    connected: bool,
    listings: Option<Vec<RustListing>>,
    owned_listing: Option<String>,
    joined_dst: Vec<PublicEndpoint>,
}

/// What a [`HostState`] holds.
pub struct HostStateView {
    /// The message of the latest failure.
    pub errors: Seq<char>,
    /// Whether there is a session.
    pub connected: bool,
    /// The directory as it was last fetched, if it ever was.
    pub listings: Option<Seq<ListingState>>,
    /// The identifier of the listing that the session owns, as text.
    pub owned_listing: Option<Seq<char>>,
    /// The endpoints of the peers that have joined.
    pub joined_dst: Seq<PublicEndpoint>,
}

impl View for HostState {
    type V = HostStateView;

    closed spec fn view(&self) -> HostStateView {
        HostStateView {
            errors: self.errors@,
            connected: self.connected,
            listings: self.listings.deep_view(),
            owned_listing: self.owned_listing.deep_view(),
            joined_dst: self.joined_dst@,
        }
    }
}

/// The message of a command given without a session.
pub open spec fn not_connected() -> Seq<char> {
    "Not connected"@
}

/// The message of an index that names no joined peer.
pub open spec fn out_of_bounds() -> Seq<char> {
    "Index out of bounds"@
}

impl HostStateView {
    /// The values with which the host starts.
    pub open spec fn init() -> HostStateView {
        HostStateView {
            errors: Seq::empty(),
            connected: false,
            listings: None,
            owned_listing: None,
            joined_dst: Seq::empty(),
        }
    }

    /// The values after something failed with the message `message`.
    pub open spec fn failed(self, message: Seq<char>) -> HostStateView {
        HostStateView { errors: message, ..self }
    }

    /// The values after an operation that changes nothing but may fail.
    pub open spec fn after<T>(self, outcome: Result<T, ClientError>) -> HostStateView {
        match outcome {
            Ok(_) => self,
            Err(e) => self.failed(e@.message()),
        }
    }
}

impl HostState {
    /// The values with which the host starts: no failure, no session, no
    /// directory, no listing, no peers.
    pub fn new() -> (r: Self)
        ensures
            r@ == HostStateView::init(),
    {
        Self {
            errors: String::new(),
            connected: false,
            listings: None,
            owned_listing: None,
            joined_dst: Vec::new(),
        }
    }

    pub fn errors(&self) -> (r: &String)
        ensures
            r@ == self@.errors,
    {
        &self.errors
    }

    pub fn connected(&self) -> (r: &bool)
        ensures
            *r == self@.connected,
    {
        &self.connected
    }

    pub fn listings(&self) -> (r: &Option<Vec<RustListing>>)
        ensures
            r.deep_view() == self@.listings,
    {
        &self.listings
    }

    pub fn owned_listing(&self) -> (r: &Option<String>)
        ensures
            r.deep_view() == self@.owned_listing,
    {
        &self.owned_listing
    }

    pub fn joined_dst(&self) -> (r: &Vec<PublicEndpoint>)
        ensures
            r@ == self@.joined_dst,
    {
        &self.joined_dst
    }

    /// Something failed outside the client, with the message given.
    pub fn fail(&mut self, message: String)
        ensures
            final(self)@ == old(self)@.failed(message@),
    {
        self.errors = message;
    }

    /// A command was given without a session.
    pub fn no_client(&mut self)
        ensures
            final(self)@ == old(self)@.failed(not_connected()),
    {
        self.errors = "Not connected".to_owned();
    }

    /// `connect` has ended: with a session, or with a failure.
    pub fn connect(&mut self, outcome: Result<(), ClientError>)
        ensures
            final(self)@ == match outcome {
                Ok(_) => HostStateView { connected: true, ..old(self)@ },
                Err(e) => old(self)@.failed(e@.message()),
            },
    {
        match outcome {
            Ok(()) => {
                self.connected = true;
            },
            Err(e) => {
                self.errors = e.message();
            },
        }
    }

    /// `disconnect` has ended. `had_client` tells whether there was a session
    /// to end; without one the command fails, and either way there is none
    /// now.
    pub fn disconnect(&mut self, had_client: bool)
        ensures
            final(self)@ == (HostStateView {
                connected: false,
                errors: if had_client {
                    old(self)@.errors
                } else {
                    not_connected()
                },
                ..old(self)@
            }),
    {
        if !had_client {
            self.errors = "Not connected".to_owned();
        }
        self.connected = false;
    }

    /// `create_listing` has ended: the session owns the listing returned, or
    /// the command failed.
    pub fn create_listing(&mut self, outcome: Result<ListingId, ClientError>)
        ensures
            final(self)@ == match outcome {
                Ok(id) => HostStateView { owned_listing: Some(id_text(id)), ..old(self)@ },
                Err(e) => old(self)@.failed(e@.message()),
            },
    {
        match outcome {
            Ok(id) => {
                self.owned_listing = Some(id_to_string(id));
            },
            Err(e) => {
                self.errors = e.message();
            },
        }
    }

    /// `remove_listing` has ended: the session owns no listing, or the
    /// command failed.
    pub fn remove_listing(&mut self, outcome: Result<(), ClientError>)
        ensures
            final(self)@ == match outcome {
                Ok(_) => HostStateView { owned_listing: None, ..old(self)@ },
                Err(e) => old(self)@.failed(e@.message()),
            },
    {
        match outcome {
            Ok(()) => {
                self.owned_listing = None;
            },
            Err(e) => {
                self.errors = e.message();
            },
        }
    }

    /// `get_listings` has ended: with the directory, or with a failure.
    pub fn get_listings(&mut self, outcome: Result<Vec<RustListing>, ClientError>)
        ensures
            final(self)@ == match outcome {
                Ok(listings) => HostStateView {
                    listings: Some(listings.deep_view()),
                    ..old(self)@
                },
                Err(e) => old(self)@.failed(e@.message()),
            },
    {
        match outcome {
            Ok(listings) => {
                self.listings = Some(listings);
            },
            Err(e) => {
                self.errors = e.message();
            },
        }
    }

    /// `join_listing` has ended. On success the peer's endpoint follows by
    /// [`HostState::joined`]; here only a failure shows.
    pub fn join_listing(&mut self, outcome: Result<(), ClientError>)
        ensures
            final(self)@ == old(self)@.after(outcome),
    {
        match outcome {
            Ok(()) => {},
            Err(e) => {
                self.errors = e.message();
            },
        }
    }

    /// A punch went through: the peer at `addr` has joined.
    pub fn joined(&mut self, addr: PublicEndpoint)
        ensures
            final(self)@ == (HostStateView {
                joined_dst: old(self)@.joined_dst.push(addr),
                ..old(self)@
            }),
    {
        self.joined_dst.push(addr);
    }

    /// Takes the joined peer at `index` off the list. An index that names
    /// none fails and changes nothing else.
    pub fn remove_joined(&mut self, index: u32)
        ensures
            final(self)@ == if index < old(self)@.joined_dst.len() {
                HostStateView {
                    joined_dst: old(self)@.joined_dst.remove(index as int),
                    ..old(self)@
                }
            } else {
                old(self)@.failed(out_of_bounds())
            },
    {
        let index = index as usize;
        if index >= self.joined_dst.len() {
            self.errors = "Index out of bounds".to_owned();
            return;
        }
        self.joined_dst.remove(index);
    }
}

/// Why `connect` could not begin.
#[derive(Clone, Copy, Debug, PartialEq, Eq, Structural)]
pub enum ConnectError {
    /// The text of the server's address is not the text of an address.
    BadServerIp,
    /// The text of the local address is not the text of an address.
    BadIp,
}

/// The two endpoints of a connection: the server's and the local one.
#[derive(Clone, Copy, Debug, PartialEq, Eq, Structural)]
pub struct Connection {
    pub server_addr: PublicEndpoint,
    pub addr: PublicEndpoint,
}

/// What the arguments of `connect` denote. The server's address is looked at
/// first.
pub open spec fn connection_of(server_ip: Seq<char>, server_port: u16, ip: Seq<char>, port: u16)
    -> Result<Connection, ConnectError> {
    if !exists|a: IpAddress| server_ip == #[trigger] ip_text(a) {
        Err(ConnectError::BadServerIp)
    } else if !exists|a: IpAddress| ip == #[trigger] ip_text(a) {
        Err(ConnectError::BadIp)
    } else {
        Ok(
            Connection {
                server_addr: PublicEndpoint {
                    ip: choose|a: IpAddress| server_ip == #[trigger] ip_text(a),
                    port: server_port,
                },
                addr: PublicEndpoint {
                    ip: choose|a: IpAddress| ip == #[trigger] ip_text(a),
                    port,
                },
            },
        )
    }
}

/// One signal for the host.
#[derive(Debug)]
pub enum Signal {
    AsyncError(String),
    ConnectionChanged(bool),
    ListingsChanged(Option<Vec<RustListing>>),
    OwnedListingChanged(Option<String>),
    JoinedAddrsChanged(Vec<PublicEndpoint>),
}

/// What a [`Signal`] holds.
pub enum SignalView {
    AsyncError(Seq<char>),
    ConnectionChanged(bool),
    ListingsChanged(Option<Seq<ListingState>>),
    OwnedListingChanged(Option<Seq<char>>),
    JoinedAddrsChanged(Seq<PublicEndpoint>),
}

impl View for Signal {
    type V = SignalView;

    open spec fn view(&self) -> SignalView {
        match *self {
            Signal::AsyncError(message) => SignalView::AsyncError(message@),
            Signal::ConnectionChanged(connected) => SignalView::ConnectionChanged(connected),
            Signal::ListingsChanged(listings) => SignalView::ListingsChanged(listings.deep_view()),
            Signal::OwnedListingChanged(id) => SignalView::OwnedListingChanged(id.deep_view()),
            Signal::JoinedAddrsChanged(addrs) => SignalView::JoinedAddrsChanged(addrs@),
        }
    }
}

impl Signal {
    /// The name under which the signal is emitted.
    pub fn name(&self) -> (r: &'static str)
        ensures
            r@ == match *self {
                Signal::AsyncError(_) => "async_error"@,
                Signal::ConnectionChanged(_) => "connection_changed"@,
                Signal::ListingsChanged(_) => "listings_changed"@,
                Signal::OwnedListingChanged(_) => "owned_listing_changed"@,
                Signal::JoinedAddrsChanged(_) => "joined_addrs_changed"@,
            },
    {
        match self {
            Signal::AsyncError(_) => "async_error",
            Signal::ConnectionChanged(_) => "connection_changed",
            Signal::ListingsChanged(_) => "listings_changed",
            Signal::OwnedListingChanged(_) => "owned_listing_changed",
            Signal::JoinedAddrsChanged(_) => "joined_addrs_changed",
        }
    }
}

/// Zero or one signal.
pub open spec fn one<T>(news: Option<T>, signal: spec_fn(T) -> SignalView) -> Seq<SignalView> {
    match news {
        Some(value) => seq![signal(value)],
        None => Seq::empty(),
    }
}

/// What each signal of a sequence holds.
pub open spec fn signal_views(signals: Seq<Signal>) -> Seq<SignalView> {
    Seq::new(signals.len(), |i: int| signals[i]@)
}

/// The host's side of the client: what it has been told of each value so
/// far.
pub struct PunchingClient {
    errors: AsyncValue<String>,
    connected: AsyncValue<bool>,
    listings: AsyncValue<Option<Vec<RustListing>>>,
    owned_listing: AsyncValue<Option<String>>,
    joined_dst: AsyncValue<Vec<PublicEndpoint>>,
}

impl View for PunchingClient {
    type V = HostStateView;

    closed spec fn view(&self) -> HostStateView {
        HostStateView {
            errors: self.errors.last(),
            connected: self.connected.last(),
            listings: self.listings.last(),
            owned_listing: self.owned_listing.last(),
            joined_dst: self.joined_dst.last(),
        }
    }
}

/// What the host has not been told yet of a value that holds `current`, when
/// it has been told `told`: the value, if it differs.
pub open spec fn untold<T>(told: T, current: T) -> Option<T> {
    if told == current {
        None
    } else {
        Some(current)
    }
}

/// The signals of one polling tick, for a host that has been told `told`,
/// when the values are `current`: one signal for each value that has
/// changed, in the order failure, connection, directory, own listing, joined
/// peers.
pub open spec fn signals_due(told: HostStateView, current: HostStateView) -> Seq<SignalView> {
    one(untold(told.errors, current.errors), |m: Seq<char>| SignalView::AsyncError(m)) + one(
        untold(told.connected, current.connected),
        |c: bool| SignalView::ConnectionChanged(c),
    ) + one(
        untold(told.listings, current.listings),
        |l: Option<Seq<ListingState>>| SignalView::ListingsChanged(l),
    ) + one(
        untold(told.owned_listing, current.owned_listing),
        |o: Option<Seq<char>>| SignalView::OwnedListingChanged(o),
    ) + one(
        untold(told.joined_dst, current.joined_dst),
        |j: Seq<PublicEndpoint>| SignalView::JoinedAddrsChanged(j),
    )
}

impl PunchingClient {
    /// A host's side that has been told the values with which the host
    /// starts.
    pub fn init() -> (r: Self)
        ensures
            r@ == HostStateView::init(),
    {
        Self {
            errors: AsyncValue::from_default("async_error"),
            connected: AsyncValue::from_default("connection_changed"),
            listings: AsyncValue::from_default("listings_changed"),
            owned_listing: AsyncValue::from_default("owned_listing_changed"),
            joined_dst: AsyncValue::from_default("joined_addrs_changed"),
        }
    }

    /// The polling tick: looks at every value and hands out a signal for
    /// each that has changed since the host was last told. After the tick the
    /// host has been told every value as it stands.
    pub fn physics_process(&mut self, state: &HostState) -> (r: Vec<Signal>)
        ensures
            signal_views(r@) == signals_due(old(self)@, state@),
            final(self)@ == state@,
    {
        let mut signals: Vec<Signal> = Vec::new();
        if let Some(error) = self.errors.poll(Some(state.errors())) {
            signals.push(Signal::AsyncError(error));
        }
        if let Some(connected) = self.connected.poll(Some(state.connected())) {
            signals.push(Signal::ConnectionChanged(connected));
        }
        if let Some(listings) = self.listings.poll(Some(state.listings())) {
            signals.push(Signal::ListingsChanged(listings));
        }
        if let Some(owned) = self.owned_listing.poll(Some(state.owned_listing())) {
            signals.push(Signal::OwnedListingChanged(owned));
        }
        let current = state.joined_dst();
        assert(current.deep_view() =~= current@);
        if let Some(joined) = self.joined_dst.poll(Some(current)) {
            assert(joined.deep_view() =~= joined@);
            signals.push(Signal::JoinedAddrsChanged(joined));
        }
        assert(signal_views(signals@) =~= signals_due(old(self)@, state@));
        signals
    }

    /// `connect`: reads the two addresses. The driver then opens the session
    /// and reports with [`HostState::connect`].
    pub fn connect(&self, server_ip: &str, server_port: u16, ip: &str, port: u16) -> (r: Result<
        Connection,
        ConnectError,
    >)
        ensures
            r == connection_of(server_ip@, server_port, ip@, port),
    {
        let server_ip = match parse_ip(server_ip) {
            Ok(a) => a,
            Err(_) => { return Err(ConnectError::BadServerIp); },
        };
        let ip = match parse_ip(ip) {
            Ok(a) => a,
            Err(_) => { return Err(ConnectError::BadIp); },
        };
        Ok(
            Connection {
                server_addr: PublicEndpoint { ip: server_ip, port: server_port },
                addr: PublicEndpoint { ip, port },
            },
        )
    }

    /// `join_listing`: reads the identifier of the listing from its text. The
    /// text that the host was shown for a listing names that listing.
    pub fn join_listing(&self, listing_id: &str) -> (r: Result<ListingId, IdError>)
        ensures
            r == match uuid_parsed(listing_id@) {
                Some(id) => Ok::<ListingId, IdError>(id),
                None => Err::<ListingId, IdError>(IdError::BadText),
            },
            forall|id: ListingId| listing_id@ == #[trigger] id_text(id) ==> r == Ok::<
                ListingId,
                IdError,
            >(id),
    {
        parse_id(listing_id)
    }
}

} // verus!

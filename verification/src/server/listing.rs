//! Listings as the server keeps them, and their wire form.

use vstd::prelude::*;
use vstd::std_specs::cmp::PartialEqSpecImpl;
use vstd::std_specs::convert::FromSpecImpl;

use crate::id::{fresh_id, id_from_bytes, id_of, id_to_bytes, is_v4, ListingId};
use crate::proto::{Listing as TonicListing, ListingNoId as TonicListingNoId};

verus! {

/// What the creator of a listing supplies: its name.
#[derive(Clone, Debug)]
pub struct RustListingNoId {
    pub name: String,
}

impl View for RustListingNoId {
    type V = Seq<char>;

    open spec fn view(&self) -> Seq<char> {
        self.name@
    }
}

impl PartialEq for RustListingNoId {
    fn eq(&self, other: &Self) -> (r: bool) {
        self.name == other.name
    }
}

impl PartialEqSpecImpl for RustListingNoId {
    open spec fn obeys_eq_spec() -> bool {
        true
    }

    open spec fn eq_spec(&self, other: &Self) -> bool {
        self.name@ == other.name@
    }
}

/// A listing with the identifier that the server gave it.
#[derive(Clone, Debug)]
pub struct RustListing {
    listing_no_id: RustListingNoId,
    id: ListingId,
}

/// What a [`RustListing`] holds.
pub struct ListingState {
    pub id: ListingId,
    pub name: Seq<char>,
}

impl View for RustListing {
    type V = ListingState;

    closed spec fn view(&self) -> ListingState {
        ListingState { id: self.id, name: self.listing_no_id.name@ }
    }
}

/// Why a listing taken from the wire was refused.
#[derive(Clone, Copy, Debug, PartialEq, Eq, Structural)]
pub enum ListingError {
    /// The packet holds no inner listing.
    EmptyInner,
    /// The identifier is not sixteen bytes long.
    BadId,
}

/// What reading a listing from the wire gives.
pub open spec fn listing_from_wire(id: Seq<u8>, name: Option<Seq<char>>) -> Result<
    ListingState,
    ListingError,
> {
    match (name, id_of(id)) {
        (None, _) => Err(ListingError::EmptyInner),
        (Some(_), None) => Err(ListingError::BadId),
        (Some(n), Some(i)) => Ok(ListingState { id: i, name: n }),
    }
}

/// Whether `packet` is the wire form of `listing`.
pub open spec fn is_wire_form(packet: crate::proto::ListingView, listing: ListingState) -> bool {
    &&& id_of(packet.id) == Some(listing.id)
    &&& packet.name == Some(listing.name)
}

impl RustListing {
    /// A listing with a freshly minted identifier.
    pub fn new(listing_no_id: RustListingNoId) -> (r: Self)
        ensures
            r@.name == listing_no_id@,
            is_v4(r@.id),
    {
        Self::with_id(listing_no_id, fresh_id())
    }

    /// A listing with the identifier given.
    pub fn with_id(listing_no_id: RustListingNoId, id: ListingId) -> (r: Self)
        ensures
            r@ == (ListingState { id, name: listing_no_id@ }),
    {
        Self { listing_no_id, id }
    }

    pub fn id(&self) -> (r: &ListingId)
        ensures
            *r == self@.id,
    {
        &self.id
    }

    pub fn inner(&self) -> (r: &RustListingNoId)
        ensures
            r@ == self@.name,
    {
        &self.listing_no_id
    }

    pub fn into_inner(self) -> (r: RustListingNoId)
        ensures
            r@ == self@.name,
    {
        self.listing_no_id
    }

    /// Reads a listing from its wire form. A packet without an inner listing
    /// is refused whatever its identifier; otherwise the identifier must be
    /// sixteen bytes long.
    pub fn try_from(listing_packet: TonicListing) -> (r: Result<Self, ListingError>)
        ensures
            match listing_from_wire(listing_packet@.id, listing_packet@.name) {
                Ok(state) => r is Ok && r->Ok_0@ == state,
                Err(e) => r == Err::<Self, ListingError>(e),
            },
    {
        let listing_no_id = match listing_packet.listing_no_id {
            Some(inner) => RustListingNoId::from(inner),
            None => { return Err(ListingError::EmptyInner); },
        };
        match id_from_bytes(listing_packet.id.as_slice()) {
            Ok(id) => Ok(Self { listing_no_id, id }),
            Err(_) => Err(ListingError::BadId),
        }
    }

    /// Reads a listing from its wire form, which stays as it is.
    pub fn from_packet(listing_packet: &TonicListing) -> (r: Result<Self, ListingError>)
        ensures
            match listing_from_wire(listing_packet@.id, listing_packet@.name) {
                Ok(state) => r is Ok && r->Ok_0@ == state,
                Err(e) => r == Err::<Self, ListingError>(e),
            },
    {
        let listing_no_id = match &listing_packet.listing_no_id {
            Some(inner) => RustListingNoId { name: inner.name.clone() },
            None => { return Err(ListingError::EmptyInner); },
        };
        match id_from_bytes(listing_packet.id.as_slice()) {
            Ok(id) => Ok(Self { listing_no_id, id }),
            Err(_) => Err(ListingError::BadId),
        }
    }
}

impl From<TonicListingNoId> for RustListingNoId {
    fn from(listing_no_id_packet: TonicListingNoId) -> (r: Self) {
        Self { name: listing_no_id_packet.name }
    }
}

impl FromSpecImpl<TonicListingNoId> for RustListingNoId {
    open spec fn obeys_from_spec() -> bool {
        true
    }

    open spec fn from_spec(listing_no_id_packet: TonicListingNoId) -> Self {
        Self { name: listing_no_id_packet.name }
    }
}

impl From<RustListingNoId> for TonicListingNoId {
    fn from(listing_no_id: RustListingNoId) -> (r: Self) {
        Self { name: listing_no_id.name }
    }
}

impl FromSpecImpl<RustListingNoId> for TonicListingNoId {
    open spec fn obeys_from_spec() -> bool {
        true
    }

    open spec fn from_spec(listing_no_id: RustListingNoId) -> Self {
        Self { name: listing_no_id.name }
    }
}

impl RustListing {
    /// The wire form of the listing.
    pub fn into_packet(self) -> (r: TonicListing)
        ensures
            is_wire_form(r@, self@),
    {
        TonicListing {
            id: id_to_bytes(self.id),
            listing_no_id: Some(TonicListingNoId::from(self.listing_no_id)),
        }
    }

    /// The wire form of the listing, which stays as it is.
    pub fn to_packet(&self) -> (r: TonicListing)
        ensures
            is_wire_form(r@, self@),
    {
        TonicListing {
            id: id_to_bytes(self.id),
            listing_no_id: Some(TonicListingNoId { name: self.listing_no_id.name.clone() }),
        }
    }
}

} // verus!

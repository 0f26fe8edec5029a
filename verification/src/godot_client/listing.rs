//! Listings as the host sees them: the identifier as text.

use vstd::prelude::*;
use vstd::std_specs::convert::FromSpecImpl;

use crate::id::{id_text, id_to_string};
use crate::server::listing::{ListingState, RustListing, RustListingNoId};

verus! {

/// What the host supplies to create a listing: its name.
#[derive(Clone, Debug)]
pub struct GodotListingNoId {
    pub name: String,
}

impl View for GodotListingNoId {
    type V = Seq<char>;

    open spec fn view(&self) -> Seq<char> {
        self.name@
    }
}

impl GodotListingNoId {
    /// A listing without a name, for the host to fill in.
    pub fn init() -> (r: Self)
        ensures
            r@ == Seq::<char>::empty(),
    {
        Self { name: String::new() }
    }
}

impl From<RustListingNoId> for GodotListingNoId {
    fn from(listing_no_id: RustListingNoId) -> (r: Self) {
        Self { name: listing_no_id.name }
    }
}

impl FromSpecImpl<RustListingNoId> for GodotListingNoId {
    open spec fn obeys_from_spec() -> bool {
        true
    }

    open spec fn from_spec(listing_no_id: RustListingNoId) -> Self {
        Self { name: listing_no_id.name }
    }
}

impl From<GodotListingNoId> for RustListingNoId {
    fn from(gd_listing_no_id: GodotListingNoId) -> (r: Self) {
        Self { name: gd_listing_no_id.name }
    }
}

impl FromSpecImpl<GodotListingNoId> for RustListingNoId {
    open spec fn obeys_from_spec() -> bool {
        true
    }

    open spec fn from_spec(gd_listing_no_id: GodotListingNoId) -> Self {
        Self { name: gd_listing_no_id.name }
    }
}

/// A listing of the directory as the host is shown it.
#[derive(Clone, Debug)]
pub struct GodotListing {
    id: String,
    listing_no_id: GodotListingNoId,
}

/// What a [`GodotListing`] holds.
pub struct GodotListingView {
    pub id: Seq<char>,
    pub name: Seq<char>,
}

impl View for GodotListing {
    type V = GodotListingView;

    closed spec fn view(&self) -> GodotListingView {
        GodotListingView { id: self.id@, name: self.listing_no_id.name@ }
    }
}

/// The listing `listing` as the host is shown it.
pub open spec fn shown(listing: ListingState) -> GodotListingView {
    GodotListingView { id: id_text(listing.id), name: listing.name }
}

impl GodotListing {
    /// A listing without identifier or name. The host gets its listings from
    /// the directory and does not make them itself.
    pub fn init() -> (r: Self)
        ensures
            r@ == (GodotListingView { id: Seq::empty(), name: Seq::empty() }),
    {
        Self { id: String::new(), listing_no_id: GodotListingNoId::init() }
    }

    /// Shows a listing to the host.
    pub fn from(listing: RustListing) -> (r: Self)
        ensures
            r@ == shown(listing@),
    {
        Self {
            id: id_to_string(*listing.id()),
            listing_no_id: GodotListingNoId::from(listing.into_inner()),
        }
    }

    /// The identifier as text.
    pub fn id(&self) -> (r: &String)
        ensures
            r@ == self@.id,
    {
        &self.id
    }

    pub fn listing_no_id(&self) -> (r: &GodotListingNoId)
        ensures
            r@ == self@.name,
    {
        &self.listing_no_id
    }
}

} // verus!

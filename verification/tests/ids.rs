use nat_puncher::godot_client::listing::{GodotListing, GodotListingNoId};
use nat_puncher::id::{fresh_id, id_from_bytes, id_to_bytes, id_to_string, parse_id, IdError};
use nat_puncher::proto::{Listing, ListingNoId};
use nat_puncher::server::listing::{ListingError, RustListing, RustListingNoId};

#[test]
fn identifier_bytes_are_most_significant_first() {
    let id: u128 = 0xa1a2a3a4b1b2c1c2d1d2d3d4d5d6d7d8;
    let bytes = id_to_bytes(id);
    assert_eq!(
        bytes,
        vec![
            0xa1, 0xa2, 0xa3, 0xa4, 0xb1, 0xb2, 0xc1, 0xc2, 0xd1, 0xd2, 0xd3, 0xd4, 0xd5, 0xd6,
            0xd7, 0xd8
        ]
    );
    assert_eq!(id_from_bytes(&bytes), Ok(id));
    assert_eq!(id_to_bytes(1), vec![0, 0, 0, 0, 0, 0, 0, 0, 0, 0, 0, 0, 0, 0, 0, 1]);
    assert_eq!(id_from_bytes(&[0xff; 16]), Ok(u128::MAX));
    assert_eq!(id_from_bytes(&[0; 16]), Ok(0));
}

#[test]
fn identifier_of_another_length_is_refused() {
    assert_eq!(id_from_bytes(&[]), Err(IdError::BadLength));
    assert_eq!(id_from_bytes(&[0; 15]), Err(IdError::BadLength));
    assert_eq!(id_from_bytes(&[0; 17]), Err(IdError::BadLength));
}

#[test]
fn fresh_identifiers_are_version_four_and_differ() {
    let a = fresh_id();
    let b = fresh_id();
    assert_ne!(a, b);
    for id in [a, b] {
        assert_eq!((id >> 76) & 0xf, 4);
        assert_eq!((id >> 62) & 0x3, 2);
    }
}

#[test]
fn identifier_text_is_hyphenated_lower_case() {
    let id: u128 = 0xa1a2a3a4b1b2c1c2d1d2d3d4d5d6d7d8;
    assert_eq!(id_to_string(id), "a1a2a3a4-b1b2-c1c2-d1d2-d3d4d5d6d7d8");
    assert_eq!(id_to_string(0), "00000000-0000-0000-0000-000000000000");
    assert_eq!(id_to_string(0x0123456789ABCDEF_0000_0000_0000_00FF), "01234567-89ab-cdef-0000-0000000000ff");
    assert_eq!(parse_id("a1a2a3a4-b1b2-c1c2-d1d2-d3d4d5d6d7d8"), Ok(id));
    assert_eq!(parse_id(&id_to_string(12345)), Ok(12345));
    assert_eq!(parse_id("not an identifier"), Err(IdError::BadText));
    assert_eq!(parse_id(""), Err(IdError::BadText));
}

#[test]
fn listing_keeps_name_and_identifier() {
    let listing = RustListing::with_id(RustListingNoId { name: "room".to_string() }, 42);
    assert_eq!(*listing.id(), 42);
    assert_eq!(listing.inner().name, "room");
    let packet = listing.to_packet();
    assert_eq!(packet.id, id_to_bytes(42));
    assert_eq!(packet.listing_no_id.as_ref().unwrap().name, "room");
    let back = RustListing::try_from(packet).unwrap();
    assert_eq!(*back.id(), 42);
    assert_eq!(back.into_inner().name, "room");
    let packet = listing.into_packet();
    assert_eq!(id_from_bytes(&packet.id), Ok(42));

    let fresh = RustListing::new(RustListingNoId { name: "new".to_string() });
    assert_eq!((*fresh.id() >> 76) & 0xf, 4);
    assert_eq!(fresh.inner().name, "new");
}

#[test]
fn malformed_listing_packets_are_refused() {
    let no_inner = Listing { id: id_to_bytes(1), listing_no_id: None };
    assert_eq!(RustListing::from_packet(&no_inner).unwrap_err(), ListingError::EmptyInner);
    let bad_id = Listing { id: vec![1, 2], listing_no_id: Some(ListingNoId { name: "x".to_string() }) };
    assert_eq!(RustListing::from_packet(&bad_id).unwrap_err(), ListingError::BadId);
    // the inner listing is looked at first
    let both = Listing { id: vec![], listing_no_id: None };
    assert_eq!(RustListing::try_from(both).unwrap_err(), ListingError::EmptyInner);
}

#[test]
fn listing_names_convert_both_ways() {
    let wire = ListingNoId { name: "w".to_string() };
    let rust = RustListingNoId::from(wire);
    assert_eq!(rust.name, "w");
    assert!(rust == RustListingNoId { name: "w".to_string() });
    assert!(rust != RustListingNoId { name: "v".to_string() });
    let wire = ListingNoId::from(rust);
    assert_eq!(wire.name, "w");
    let host = GodotListingNoId::from(RustListingNoId { name: "h".to_string() });
    assert_eq!(host.name, "h");
    let rust = RustListingNoId::from(host);
    assert_eq!(rust.name, "h");
    assert_eq!(GodotListingNoId::init().name, "");
}

#[test]
fn host_is_shown_the_identifier_as_text() {
    let listing = RustListing::with_id(RustListingNoId { name: "room".to_string() }, 0xff);
    let shown = GodotListing::from(listing);
    assert_eq!(shown.id(), "00000000-0000-0000-0000-0000000000ff");
    assert_eq!(shown.listing_no_id().name, "room");
    assert_eq!(parse_id(shown.id()), Ok(0xff));
    let blank = GodotListing::init();
    assert_eq!(blank.id(), "");
    assert_eq!(blank.listing_no_id().name, "");
}

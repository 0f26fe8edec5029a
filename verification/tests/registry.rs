use nat_puncher::addr::{IpAddress, PublicEndpoint};
use nat_puncher::client::session::{keepalive, next_keepalive, KEEPALIVE_INTERVAL};
use nat_puncher::client::{Client, FirstMessage, Reply};
use nat_puncher::id::{id_from_bytes, id_to_bytes};
use nat_puncher::proto::{
    AddListingRequest, Code, EndSessionRequest, GetListingsRequest, JoinRequest, ListingNoId,
    RemoveListingRequest,
};
use nat_puncher::server::listing::RustListingNoId;
use nat_puncher::server::session::Session;
use nat_puncher::server::state::Rejection;
use nat_puncher::server::stream::{StreamAction, StreamEvent};
use nat_puncher::server::PuncherServer;

fn local(port: u16) -> PublicEndpoint {
    PublicEndpoint { ip: IpAddress::V4(127, 0, 0, 1), port }
}

fn setup() -> (PuncherServer, Client) {
    let mut server = PuncherServer::default();
    let mut client = Client::new();
    let stream = server.stream_session(Some(local(4000)), 0).unwrap();
    client.start_session(FirstMessage::Message(stream.first)).unwrap();
    (server, client)
}

fn test_client(server: &mut PuncherServer, port: u16) -> Client {
    let mut client = Client::new();
    let stream = server.stream_session(Some(local(port)), 0).unwrap();
    let id = client.start_session(FirstMessage::Message(stream.first)).unwrap();
    assert_eq!(id, stream.session_id);
    client
}

#[test]
fn test_session_timeout() {
    let addr = PublicEndpoint { ip: IpAddress::V4(127, 0, 0, 1), port: 8080 };
    let now: u64 = 1_000_000;
    let timeout_time = now - Session::TIMEOUT_TIME;

    let mut s = Session::new(addr, now);
    let t = timeout_time + 5_000;
    s.set_last_seen(t);
    assert!(!s.is_timed_out(now));

    let mut s = Session::new(addr, now);
    let t = timeout_time - 5_000;
    s.set_last_seen(t);
    assert!(s.is_timed_out(now));
}

#[test]
fn test_add_and_get_listing() {
    let (mut server, client) = setup();
    let session_id = client.session().as_ref().unwrap().id();

    let name = "test listing";
    let res = server
        .add_listing(
            AddListingRequest {
                session_id,
                listing: Some(ListingNoId { name: name.to_string() }),
            },
            0,
        )
        .unwrap();
    assert_eq!(res.listing_id.len(), 16);

    let listings = server.get_listings(GetListingsRequest {}, 0);

    assert_eq!(listings.listings.len(), 1);
    assert_eq!(listings.listings[0].listing_no_id.as_ref().unwrap().name, name);
    assert_eq!(listings.listings[0].id, res.listing_id);
}

#[test]
fn test_remove_listing() {
    let (mut server, client) = setup();
    let session_id = client.session().as_ref().unwrap().id();

    server
        .add_listing(
            AddListingRequest {
                session_id: session_id.clone(),
                listing: Some(ListingNoId { name: "test".to_string() }),
            },
            0,
        )
        .unwrap();

    server
        .remove_listing(RemoveListingRequest { session_id: session_id.clone() }, 0)
        .unwrap();

    let listings = server.get_listings(GetListingsRequest {}, 0);
    assert!(listings.listings.is_empty());
}

#[test]
fn listings() {
    let mut server = PuncherServer::default();
    let c_1 = test_client(&mut server, 4001);
    let c_2 = test_client(&mut server, 4002);

    let listing = RustListingNoId { name: "test listing".to_string() };
    let l = listing.clone();
    let answer = server.add_listing(c_1.create_listing(listing).unwrap(), 0);
    let id_1 = Client::listing_created(Reply::Answer(answer.unwrap())).unwrap();

    let answer = server.get_listings(c_2.get_listings(), 0);
    let listings = Client::listings_received(Reply::Answer(answer)).unwrap();
    assert_eq!(listings.len(), 1);

    let target_listing = &listings[0];
    assert_eq!(*target_listing.inner(), l);
    assert_eq!(*target_listing.id(), id_1);

    let listing = RustListingNoId { name: "test listing".to_string() };
    server.add_listing(c_2.create_listing(listing).unwrap(), 0).unwrap();

    let answer = server.get_listings(c_2.get_listings(), 0);
    let listings = Client::listings_received(Reply::Answer(answer)).unwrap();
    assert_eq!(listings.len(), 2);

    server.remove_listing(c_2.remove_listing().unwrap(), 0).unwrap();
    server.remove_listing(c_1.remove_listing().unwrap(), 0).unwrap();

    let answer = server.get_listings(c_1.get_listings(), 0);
    let listings = Client::listings_received(Reply::Answer(answer)).unwrap();
    assert_eq!(listings.len(), 0);
}

#[test]
fn directory_of_a_fresh_server_is_empty() {
    let (mut server, client) = setup();
    let answer = server.get_listings(client.get_listings(), 0);
    assert!(answer.listings.is_empty());
    assert_eq!(server.session_count(), 1);
}

#[test]
fn directory_counts_sessions_with_a_listing() {
    let mut server = PuncherServer::with_session_timeout(60_000);
    let mut ids = Vec::new();
    for n in 0..10u128 {
        let id = 100 + n;
        server.insert_session(id, local(5000 + n as u16), 0).unwrap();
        ids.push(id);
    }
    for (n, id) in ids.iter().enumerate() {
        if n % 3 == 0 {
            let request = AddListingRequest {
                session_id: id_to_bytes(*id),
                listing: Some(ListingNoId { name: format!("listing {n}") }),
            };
            server.add_listing_with(request, false, 900 + n as u128, 0).unwrap();
        }
    }
    let directory = server.listings();
    assert_eq!(directory.len(), 4);
    let mut seen: Vec<u128> = directory.iter().map(|l| id_from_bytes(&l.id).unwrap()).collect();
    seen.sort();
    assert_eq!(seen, vec![900, 903, 906, 909]);
    for entry in &directory {
        let listing = id_from_bytes(&entry.id).unwrap();
        let owner = server.owner_of(&listing).unwrap();
        assert_eq!(owner, 100 + (listing - 900));
        assert_eq!(
            entry.listing_no_id.as_ref().unwrap().name,
            format!("listing {}", listing - 900)
        );
    }
}

#[test]
fn added_listing_is_listed_once_under_its_owner() {
    let mut server = PuncherServer::default();
    server.insert_session(1, local(1), 0).unwrap();
    server.insert_session(2, local(2), 0).unwrap();
    let request = AddListingRequest {
        session_id: id_to_bytes(1),
        listing: Some(ListingNoId { name: "mine".to_string() }),
    };
    let answer = server.add_listing_with(request, false, 77, 0).unwrap();
    assert_eq!(id_from_bytes(&answer.listing_id), Ok(77));
    let directory = server.listings();
    let mine: Vec<_> = directory
        .iter()
        .filter(|l| server.owner_of(&id_from_bytes(&l.id).unwrap()) == Some(1))
        .collect();
    assert_eq!(mine.len(), 1);
    assert_eq!(mine[0].listing_no_id.as_ref().unwrap().name, "mine");
    assert_eq!(mine[0].id, id_to_bytes(77));
}

#[test]
fn second_listing_of_a_session_is_refused() {
    let (mut server, client) = setup();
    let first = client.create_listing(RustListingNoId { name: "a".to_string() }).unwrap();
    let second = client.create_listing(RustListingNoId { name: "b".to_string() }).unwrap();
    server.add_listing(first, 0).unwrap();
    let refused = server.add_listing(second, 0).unwrap_err();
    assert_eq!(refused, Rejection::AlreadyListed);
    assert_eq!(refused.code(), Code::AlreadyExists);
    assert_eq!(server.listings().len(), 1);
}

#[test]
fn add_remove_add_succeeds() {
    let (mut server, client) = setup();
    let name = "again";
    let request = || client.create_listing(RustListingNoId { name: name.to_string() }).unwrap();
    let first = server.add_listing_with(request(), false, 10, 0).unwrap();
    server.remove_listing(client.remove_listing().unwrap(), 1).unwrap();
    let third = server.add_listing_with(request(), false, 11, 2).unwrap();
    assert_eq!(id_from_bytes(&first.listing_id), Ok(10));
    assert_eq!(id_from_bytes(&third.listing_id), Ok(11));
    let directory = server.listings();
    assert_eq!(directory.len(), 1);
    assert_eq!(directory[0].id, id_to_bytes(11));
}

#[test]
fn removing_without_a_listing_is_ok() {
    let (mut server, client) = setup();
    assert!(server.remove_listing(client.remove_listing().unwrap(), 0).is_ok());
    assert!(server.remove_listing(client.remove_listing().unwrap(), 0).is_ok());
    assert_eq!(server.session_count(), 1);
}

#[test]
fn requests_with_bad_identifiers_are_refused() {
    let (mut server, client) = setup();
    let short = vec![1u8, 2, 3];
    let refused = server
        .add_listing(
            AddListingRequest {
                session_id: short.clone(),
                listing: Some(ListingNoId { name: "x".to_string() }),
            },
            0,
        )
        .unwrap_err();
    assert_eq!(refused, Rejection::InvalidSessionId);
    assert_eq!(refused.code(), Code::InvalidArgument);
    assert_eq!(
        server.remove_listing(RemoveListingRequest { session_id: short.clone() }, 0).unwrap_err(),
        Rejection::InvalidSessionId
    );
    assert_eq!(
        server.end_session(EndSessionRequest { session_id: short.clone() }, 0).unwrap_err(),
        Rejection::InvalidSessionId
    );
    assert_eq!(
        server
            .join(JoinRequest { session_id: short.clone(), target_listing_id: id_to_bytes(1) }, 0)
            .unwrap_err(),
        Rejection::InvalidSessionId
    );
    let session_id = client.session().as_ref().unwrap().id();
    assert_eq!(
        server.join(JoinRequest { session_id, target_listing_id: short }, 0).unwrap_err(),
        Rejection::InvalidListingId
    );
}

#[test]
fn unknown_session_is_not_found() {
    let mut server = PuncherServer::default();
    let refused = server
        .add_listing(
            AddListingRequest {
                session_id: id_to_bytes(5),
                listing: Some(ListingNoId { name: "x".to_string() }),
            },
            0,
        )
        .unwrap_err();
    assert_eq!(refused, Rejection::SessionNotFound);
    assert_eq!(refused.code(), Code::NotFound);
    assert_eq!(refused.status().message, "Invalid session_id: Not found.");
}

#[test]
fn request_without_listing_and_long_names_are_refused() {
    let (mut server, client) = setup();
    let session_id = client.session().as_ref().unwrap().id();
    assert_eq!(
        server
            .add_listing(AddListingRequest { session_id: session_id.clone(), listing: None }, 0)
            .unwrap_err(),
        Rejection::NoListing
    );
    let long = "x".repeat(257);
    assert_eq!(
        server
            .add_listing(
                AddListingRequest {
                    session_id: session_id.clone(),
                    listing: Some(ListingNoId { name: long }),
                },
                0
            )
            .unwrap_err(),
        Rejection::NameTooLong
    );
    let fits = "é".repeat(128);
    assert_eq!(fits.len(), 256);
    assert!(server
        .add_listing(
            AddListingRequest { session_id, listing: Some(ListingNoId { name: fits }) },
            0
        )
        .is_ok());
}

#[test]
fn minted_identifier_in_use_is_refused() {
    let mut server = PuncherServer::default();
    server.insert_session(1, local(1), 0).unwrap();
    server.insert_session(2, local(2), 0).unwrap();
    assert_eq!(server.insert_session(1, local(3), 0), Err(Rejection::IdInUse));
    let request = |id: u128| AddListingRequest {
        session_id: id_to_bytes(id),
        listing: Some(ListingNoId { name: "x".to_string() }),
    };
    server.add_listing_with(request(1), false, 50, 0).unwrap();
    let refused = server.add_listing_with(request(2), false, 50, 0).unwrap_err();
    assert_eq!(refused, Rejection::IdInUse);
    assert_eq!(refused.code(), Code::Internal);
    assert_eq!(
        server.stream_session_with(Some(local(9)), false, 2, 0).unwrap_err(),
        Rejection::IdInUse
    );
}

#[test]
fn stream_without_peer_address_is_refused() {
    let mut server = PuncherServer::default();
    let refused = server.stream_session(None, 0).unwrap_err();
    assert_eq!(refused, Rejection::NoPeerAddress);
    assert_eq!(refused.code(), Code::Internal);
    assert_eq!(server.session_count(), 0);
}

#[test]
fn first_message_of_a_stream_assigns_the_session() {
    let mut server = PuncherServer::default();
    let stream = server.stream_session(Some(local(1)), 0).unwrap();
    assert_eq!(stream.first.session_id_assignment, Some(id_to_bytes(stream.session_id)));
    assert!(stream.first.server_stream_enum.is_none());
    assert!(server.get(&stream.session_id).is_some());
    assert_eq!(*server.get(&stream.session_id).unwrap().addr(), local(1));
    // a fresh identifier is a random (version 4) UUID
    let uuid = uuid::Uuid::from_u128(stream.session_id);
    assert_eq!(uuid.get_version_num(), 4);
}

#[test]
fn sweep_evicts_exactly_the_timed_out_sessions() {
    let mut server = PuncherServer::with_session_timeout(60_000);
    server.insert_session(1, local(1), 0).unwrap();
    server.insert_session(2, local(2), 10_000).unwrap();
    server.insert_session(3, local(3), 0).unwrap();
    let request = AddListingRequest {
        session_id: id_to_bytes(3),
        listing: Some(ListingNoId { name: "gone".to_string() }),
    };
    server.add_listing_with(request, false, 30, 0).unwrap();

    // at 60 s nobody has been silent for longer than the timeout
    assert!(server.remove_timed_out(60_000).is_empty());
    assert_eq!(server.session_count(), 3);

    // a sweep that does not run removes nothing
    assert!(server.sweep(false, 65_000).is_empty());
    assert_eq!(server.session_count(), 3);

    let mut evicted = server.sweep(true, 65_000);
    evicted.sort();
    assert_eq!(evicted, vec![1, 3]);
    assert_eq!(server.session_count(), 1);
    assert!(server.get(&2).is_some());
    assert!(server.listings().is_empty());
    assert_eq!(server.owner_of(&30), None);
}

#[test]
fn sweep_by_chance_removes_nothing_or_all_timed_out() {
    for _ in 0..200 {
        let mut server = PuncherServer::with_session_timeout(1_000);
        server.insert_session(1, local(1), 0).unwrap();
        server.insert_session(2, local(2), 5_000).unwrap();
        let evicted = server.remove_timed_out_chance(5_000);
        if evicted.is_empty() {
            assert_eq!(server.session_count(), 2);
        } else {
            assert_eq!(evicted, vec![1]);
            assert_eq!(server.session_count(), 1);
        }
    }
}

#[test]
fn timed_out_session_is_removed_when_it_asks() {
    let mut server = PuncherServer::with_session_timeout(60_000);
    server.insert_session(1, local(1), 0).unwrap();
    let request = AddListingRequest {
        session_id: id_to_bytes(1),
        listing: Some(ListingNoId { name: "late".to_string() }),
    };
    let refused = server.add_listing_with(request, false, 9, 60_001).unwrap_err();
    assert_eq!(refused, Rejection::SessionExpired);
    assert_eq!(refused.code(), Code::NotFound);
    assert_eq!(server.session_count(), 0);
    assert_eq!(server.validate(&1, 60_001), Err(Rejection::SessionNotFound));
}

#[test]
fn keepalive_keeps_a_session_alive() {
    let mut server = PuncherServer::with_session_timeout(Session::TIMEOUT_TIME);
    server.insert_session(1, local(1), 0).unwrap();
    let mut now = 0;
    for _ in 0..100 {
        now = next_keepalive(now);
        assert!(server.remove_timed_out(now).is_empty());
        let action = server.handle_stream(&1, StreamEvent::Message(keepalive()), now);
        assert!(matches!(action, StreamAction::Continue));
        assert_eq!(server.get(&1).unwrap().last_seen(), now);
    }
    assert_eq!(now, 100 * KEEPALIVE_INTERVAL);
    // the time recorded never moves back
    server.see(&1, 5);
    assert_eq!(server.get(&1).unwrap().last_seen(), now);
    // it survives for the whole timeout after its last message, not longer
    assert!(server.remove_timed_out(now + Session::TIMEOUT_TIME).is_empty());
    assert_eq!(server.remove_timed_out(now + Session::TIMEOUT_TIME + 1), vec![1]);
}

#[test]
fn end_of_stream_ends_the_session_with_its_listing() {
    for failed in [false, true] {
        let (mut server, client) = setup();
        let id = *client.session().as_ref().unwrap().uuid();
        server
            .add_listing(client.create_listing(RustListingNoId { name: "x".to_string() }).unwrap(), 0)
            .unwrap();
        let event = if failed { StreamEvent::Failed } else { StreamEvent::Closed };
        assert!(matches!(server.handle_stream(&id, event, 1), StreamAction::Stop));
        assert_eq!(server.session_count(), 0);
        assert!(server.listings().is_empty());
        // once more: nothing is left to end
        assert!(matches!(server.handle_stream(&id, StreamEvent::Closed, 2), StreamAction::Stop));
        server.cleanup(&id);
        assert_eq!(server.session_count(), 0);
    }
}

#[test]
fn end_session_is_idempotent() {
    let (mut server, mut client) = setup();
    let farewell = client.end_session().unwrap();
    assert!(client.end_session().is_none());
    assert!(client.session().is_none());
    assert!(server.end_session(EndSessionRequest { session_id: farewell.session_id.clone() }, 0).is_ok());
    assert_eq!(server.session_count(), 0);
    assert!(server.end_session(farewell, 0).is_ok());
    assert_eq!(server.session_count(), 0);
}

#[test]
fn remove_deep_removes_the_sessions_named() {
    let mut server = PuncherServer::default();
    for id in 1..=5u128 {
        server.insert_session(id, local(id as u16), 0).unwrap();
    }
    server.remove_deep(&[2, 4, 4, 9]);
    assert_eq!(server.session_count(), 3);
    assert!(server.get(&2).is_none());
    assert!(server.get(&4).is_none());
    assert!(server.get(&1).is_some());
}

#[test]
fn refusals_map_to_status_codes() {
    let all = [
        (Rejection::InvalidSessionId, Code::InvalidArgument),
        (Rejection::InvalidListingId, Code::InvalidArgument),
        (Rejection::NoListing, Code::InvalidArgument),
        (Rejection::NameTooLong, Code::InvalidArgument),
        (Rejection::SessionNotFound, Code::NotFound),
        (Rejection::SessionExpired, Code::NotFound),
        (Rejection::ListingNotFound, Code::NotFound),
        (Rejection::AlreadyListed, Code::AlreadyExists),
        (Rejection::NoPeerAddress, Code::Internal),
        (Rejection::IdInUse, Code::Internal),
    ];
    for (rejection, code) in all {
        assert_eq!(rejection.code(), code);
        assert_eq!(rejection.status().code, code);
        assert!(!rejection.status().message.is_empty());
    }
}

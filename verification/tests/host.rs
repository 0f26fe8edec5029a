use nat_puncher::addr::{IpAddress, PublicEndpoint};
use nat_puncher::client::ClientError;
use nat_puncher::godot_client::asyncvalue::AsyncValue;
use nat_puncher::godot_client::{ConnectError, Connection, HostState, PunchingClient, Signal};
use nat_puncher::id::{id_to_string, IdError};
use nat_puncher::proto::{Code, Status};
use nat_puncher::server::listing::{RustListing, RustListingNoId};

fn local(port: u16) -> PublicEndpoint {
    PublicEndpoint { ip: IpAddress::V4(127, 0, 0, 1), port }
}

fn names(signals: &[Signal]) -> Vec<&'static str> {
    signals.iter().map(|s| s.name()).collect()
}

#[test]
fn value_is_signalled_on_change_only() {
    let mut value: AsyncValue<Vec<PublicEndpoint>> = AsyncValue::from_default("joined_addrs_changed");
    assert_eq!(value.signal(), "joined_addrs_changed");
    assert_eq!(value.poll(Some(&vec![])), None);
    assert_eq!(value.poll(None), None);
    assert_eq!(value.poll(Some(&vec![local(1)])), Some(vec![local(1)]));
    assert_eq!(value.poll(Some(&vec![local(1)])), None);
    assert_eq!(value.poll(Some(&vec![local(1), local(2)])), Some(vec![local(1), local(2)]));
    assert_eq!(value.poll(Some(&vec![local(2), local(1)])), Some(vec![local(2), local(1)]));
    assert_eq!(value.poll(Some(&vec![])), Some(vec![]));

    let mut value = AsyncValue::new("async_error", "old".to_string());
    assert_eq!(value.poll(Some(&"old".to_string())), None);
    assert_eq!(value.poll(Some(&"new".to_string())), Some("new".to_string()));
}

#[test]
fn nothing_is_signalled_while_nothing_changes() {
    let mut host = PunchingClient::init();
    let state = HostState::new();
    assert!(host.physics_process(&state).is_empty());
    assert!(host.physics_process(&state).is_empty());
}

#[test]
fn each_change_is_signalled_once_in_order() {
    let mut host = PunchingClient::init();
    let mut state = HostState::new();

    state.connect(Ok(()));
    let signals = host.physics_process(&state);
    assert_eq!(names(&signals), vec!["connection_changed"]);
    assert!(matches!(signals[0], Signal::ConnectionChanged(true)));
    assert!(host.physics_process(&state).is_empty());

    state.create_listing(Ok(0xff));
    state.get_listings(Ok(vec![RustListing::with_id(
        RustListingNoId { name: "room".to_string() },
        0xff,
    )]));
    state.joined(local(7));
    state.no_client();
    let signals = host.physics_process(&state);
    assert_eq!(
        names(&signals),
        vec!["async_error", "listings_changed", "owned_listing_changed", "joined_addrs_changed"]
    );
    match &signals[0] {
        Signal::AsyncError(message) => assert_eq!(message, "Not connected"),
        other => panic!("{other:?}"),
    }
    match &signals[1] {
        Signal::ListingsChanged(Some(listings)) => {
            assert_eq!(listings.len(), 1);
            assert_eq!(*listings[0].id(), 0xff);
            assert_eq!(listings[0].inner().name, "room");
        },
        other => panic!("{other:?}"),
    }
    match &signals[2] {
        Signal::OwnedListingChanged(Some(id)) => assert_eq!(*id, id_to_string(0xff)),
        other => panic!("{other:?}"),
    }
    match &signals[3] {
        Signal::JoinedAddrsChanged(addrs) => assert_eq!(*addrs, vec![local(7)]),
        other => panic!("{other:?}"),
    }
    assert!(host.physics_process(&state).is_empty());

    state.remove_listing(Ok(()));
    state.disconnect(true);
    let signals = host.physics_process(&state);
    assert_eq!(names(&signals), vec!["connection_changed", "owned_listing_changed"]);
    assert!(matches!(signals[0], Signal::ConnectionChanged(false)));
    assert!(matches!(signals[1], Signal::OwnedListingChanged(None)));
}

#[test]
fn value_that_changes_back_between_ticks_is_not_signalled() {
    let mut host = PunchingClient::init();
    let mut state = HostState::new();
    state.connect(Ok(()));
    state.disconnect(true);
    assert!(host.physics_process(&state).is_empty());
}

#[test]
fn failures_show_as_the_latest_error() {
    let mut state = HostState::new();
    state.connect(Err(ClientError::Timeout));
    assert!(!*state.connected());
    assert_eq!(state.errors(), "Timeout waiting for the server");
    let rpc = || ClientError::Rpc(Status { code: Code::AlreadyExists, message: "twice".to_string() });
    state.create_listing(Err(rpc()));
    assert_eq!(state.errors(), "Error status: twice");
    assert_eq!(*state.owned_listing(), None);
    state.remove_listing(Err(ClientError::NoSession));
    assert_eq!(state.errors(), "Not connected");
    state.get_listings(Err(ClientError::BadListingId));
    assert_eq!(state.errors(), "Received bad listing_id from server");
    assert!(state.listings().is_none());
    state.join_listing(Err(rpc()));
    assert_eq!(state.errors(), "Error status: twice");
    state.join_listing(Ok(()));
    assert_eq!(state.errors(), "Error status: twice");
    state.disconnect(false);
    assert_eq!(state.errors(), "Not connected");
    assert!(!*state.connected());
}

#[test]
fn joined_peers_are_removed_by_index() {
    let mut state = HostState::new();
    state.joined(local(1));
    state.joined(local(2));
    state.joined(local(3));
    state.remove_joined(1);
    assert_eq!(*state.joined_dst(), vec![local(1), local(3)]);
    assert_eq!(state.errors(), "");
    state.remove_joined(2);
    assert_eq!(*state.joined_dst(), vec![local(1), local(3)]);
    assert_eq!(state.errors(), "Index out of bounds");
    state.remove_joined(0);
    state.remove_joined(0);
    assert!(state.joined_dst().is_empty());
    state.remove_joined(0);
    assert!(state.joined_dst().is_empty());
}

#[test]
fn connect_reads_both_addresses() {
    let host = PunchingClient::init();
    assert_eq!(
        host.connect("10.0.0.1", 3000, "192.168.1.5", 4000),
        Ok(Connection {
            server_addr: PublicEndpoint { ip: IpAddress::V4(10, 0, 0, 1), port: 3000 },
            addr: PublicEndpoint { ip: IpAddress::V4(192, 168, 1, 5), port: 4000 },
        })
    );
    assert_eq!(host.connect("server", 3000, "192.168.1.5", 4000), Err(ConnectError::BadServerIp));
    assert_eq!(host.connect("10.0.0.1", 3000, "here", 4000), Err(ConnectError::BadIp));
    assert_eq!(host.connect("server", 3000, "here", 4000), Err(ConnectError::BadServerIp));
}

#[test]
fn join_listing_reads_the_identifier_shown() {
    let host = PunchingClient::init();
    assert_eq!(host.join_listing(&id_to_string(0xabcdef)), Ok(0xabcdef));
    assert_eq!(host.join_listing("00000000-0000-0000-0000-0000000000ff"), Ok(0xff));
    assert_eq!(host.join_listing("no such listing"), Err(IdError::BadText));
}

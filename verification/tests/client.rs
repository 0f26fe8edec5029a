use nat_puncher::addr::{IpAddress, PublicEndpoint};
use nat_puncher::client::asyncflag::AsyncFlag;
use nat_puncher::client::engine::{PunchAction, PunchEngine, PunchEvent};
use nat_puncher::client::session::{
    handle_stream as dispatch, keepalive, next_keepalive, punch_report, Action, PunchError,
    PunchResult, ServerEvent, Session, KEEPALIVE_INTERVAL,
};
use nat_puncher::client::stream::{OrderError, StreamHandler};
use nat_puncher::client::{Client, ClientError, ErrorKind, FirstMessage, Reply};
use nat_puncher::id::id_to_bytes;
use nat_puncher::proto::{
    AddListingResponse, ClientStreamEnum, ClientStreamMessage, Code, GetListingsResponse,
    JoinResponse, Listing, ListingNoId, Proxy, Punch, PunchStatus, RemoveListingResponse,
    ServerStreamEnum, ServerStreamMessage, Status,
};
use nat_puncher::server::join::{join_response, order_punch, punch_status, OrderOutcome};
use nat_puncher::server::listing::RustListingNoId;
use nat_puncher::server::state::Rejection;
use nat_puncher::server::stream::{StreamAction, StreamEvent};
use nat_puncher::server::PuncherServer;

fn local(port: u16) -> PublicEndpoint {
    PublicEndpoint { ip: IpAddress::V4(127, 0, 0, 1), port }
}

fn test_client(server: &mut PuncherServer, port: u16) -> Client {
    let mut client = Client::new();
    let stream = server.stream_session(Some(local(port)), 0).unwrap();
    client.start_session(FirstMessage::Message(stream.first)).unwrap();
    client
}

fn status_of(message: ClientStreamMessage) -> PunchStatus {
    match message.client_stream_enum {
        Some(ClientStreamEnum::PunchStatus(status)) => status,
        None => panic!("keepalive"),
    }
}

/// Carries out one punch order on the client's side: the punch goes through
/// as soon as the peer's first probe arrives.
fn carry_out(order: ServerStreamMessage, joined: &mut Vec<PublicEndpoint>) -> ClientStreamMessage {
    let handler = StreamHandler::new(local(1));
    match handler.handle_order(ServerEvent::Message(order)) {
        Action::Punch(addr) => {
            let mut engine: PunchEngine = nat_puncher::client::engine::punch(addr, 0);
            assert!(matches!(engine.step(PunchEvent::Tick, 0), PunchAction::Send { .. }));
            let outcome = match engine.step(PunchEvent::Received, 5) {
                PunchAction::Done(outcome) => outcome,
                other => panic!("{other:?}"),
            };
            let (peer, report) = punch_report(addr, outcome);
            joined.extend(peer);
            report
        },
        other => panic!("{other:?}"),
    }
}

#[test]
fn client_punching() {
    let mut server = PuncherServer::default();
    let c_1 = test_client(&mut server, 6001);
    let c_2 = test_client(&mut server, 6002);
    let id_1 = *c_1.session().as_ref().unwrap().uuid();
    let id_2 = *c_2.session().as_ref().unwrap().uuid();
    let mut dst_1: Vec<PublicEndpoint> = Vec::new();
    let mut dst_2: Vec<PublicEndpoint> = Vec::new();

    let listing = RustListingNoId { name: "test listing".to_string() };
    server.add_listing(c_1.create_listing(listing).unwrap(), 0).unwrap();

    let answer = server.get_listings(c_2.get_listings(), 0);
    let listings = Client::listings_received(Reply::Answer(answer)).unwrap();
    assert_eq!(listings.len(), 1);

    let target_listing = &listings[0];

    assert!(dst_1.is_empty());
    assert!(dst_2.is_empty());

    // c_2 joins: the server orders both to punch, each toward the other
    let orders = server.join(c_2.join(*target_listing.id()).unwrap(), 0).unwrap();
    assert_eq!(orders.joiner, id_2);
    assert_eq!(orders.target, id_1);
    let report_2 = carry_out(orders.joiner_order, &mut dst_2);
    let report_1 = carry_out(orders.target_order, &mut dst_1);

    // the reports come back on the streams and are handed to the join
    let forwarded_2 = match server.handle_stream(&id_2, StreamEvent::Message(report_2), 1) {
        StreamAction::Forward(ClientStreamEnum::PunchStatus(status)) => status,
        other => panic!("{other:?}"),
    };
    let forwarded_1 = match server.handle_stream(&id_1, StreamEvent::Message(report_1), 1) {
        StreamAction::Forward(ClientStreamEnum::PunchStatus(status)) => status,
        other => panic!("{other:?}"),
    };
    let answer = join_response(
        punch_status(OrderOutcome::Reported(forwarded_2)),
        punch_status(OrderOutcome::Reported(forwarded_1)),
    );
    Client::joined(Reply::Answer(answer.unwrap())).unwrap();

    assert!(!dst_1.is_empty());
    assert!(!dst_2.is_empty());
    assert_eq!(dst_1, vec![local(6002)]);
    assert_eq!(dst_2, vec![local(6001)]);

    // joining changes no listing
    assert_eq!(server.listings().len(), 1);
    assert_eq!(server.session_count(), 2);
}

#[test]
fn punch_order_names_the_endpoint_as_text() {
    let order = order_punch(&local(8080));
    assert!(order.session_id_assignment.is_none());
    match order.server_stream_enum {
        Some(ServerStreamEnum::Punch(p)) => {
            assert_eq!(p.ip, "127.0.0.1");
            assert_eq!(p.port, 8080);
        },
        other => panic!("{other:?}"),
    }
    let v6 = PublicEndpoint { ip: IpAddress::V6(0xfe80, 0, 0, 0, 0, 0, 0, 1), port: 65535 };
    match order_punch(&v6).server_stream_enum {
        Some(ServerStreamEnum::Punch(p)) => {
            assert_eq!(p.ip, "[fe80:0:0:0:0:0:0:1]");
            assert_eq!(p.port, 65535);
        },
        other => panic!("{other:?}"),
    }
    // what the server writes, the client reads back
    match dispatch(ServerEvent::Message(order_punch(&v6))) {
        Action::Punch(addr) => assert_eq!(addr, v6),
        other => panic!("{other:?}"),
    }
}

#[test]
fn join_of_an_unknown_listing_is_not_found() {
    let mut server = PuncherServer::default();
    let c_1 = test_client(&mut server, 1);
    let refused = server.join(c_1.join(123).unwrap(), 0).unwrap_err();
    assert_eq!(refused, Rejection::ListingNotFound);
    assert_eq!(refused.code(), Code::NotFound);
    assert_eq!(server.session_count(), 1);
}

#[test]
fn join_fails_unless_both_punched_through() {
    let ok = || PunchStatus { message: None, success: true };
    let bad = |m: &str| PunchStatus { message: Some(m.to_string()), success: false };
    assert!(join_response(ok(), ok()).is_ok());
    let failed = join_response(ok(), bad("target down")).unwrap_err();
    assert_eq!(failed.joiner_message, None);
    assert_eq!(failed.target_message.as_deref(), Some("target down"));
    let status = failed.status();
    assert_eq!(status.code, Code::PunchFailed);
    assert_eq!(status.message, "target down");
    let failed = join_response(bad("joiner down"), bad("target down")).unwrap_err();
    assert_eq!(failed.status().message, "joiner down");
    let failed = join_response(
        PunchStatus { message: None, success: false },
        ok(),
    )
    .unwrap_err();
    assert_eq!(failed.status().message, "Punch failed.");
}

#[test]
fn missing_report_counts_as_a_failed_punch() {
    let timed_out = punch_status(OrderOutcome::TimedOut);
    assert!(!timed_out.success);
    assert_eq!(timed_out.message.as_deref(), Some("timeout"));
    let closed = punch_status(OrderOutcome::Closed);
    assert!(!closed.success);
    assert_eq!(closed.message, None);
    let reported = punch_status(OrderOutcome::Reported(PunchStatus {
        message: Some("m".to_string()),
        success: true,
    }));
    assert!(reported.success);
    assert_eq!(reported.message.as_deref(), Some("m"));
    assert!(join_response(timed_out, closed).is_err());
}

#[test]
fn first_message_must_assign_a_session() {
    let assignment = |bytes: Option<Vec<u8>>| {
        FirstMessage::Message(ServerStreamMessage {
            session_id_assignment: bytes,
            server_stream_enum: None,
        })
    };
    let mut client = Client::new();
    assert!(matches!(client.start_session(FirstMessage::TimedOut), Err(ClientError::Timeout)));
    assert!(matches!(client.start_session(FirstMessage::Closed), Err(ClientError::NoFirstMessage)));
    assert!(matches!(client.start_session(assignment(None)), Err(ClientError::NoAssignment)));
    assert!(matches!(
        client.start_session(assignment(Some(vec![1, 2, 3]))),
        Err(ClientError::BadSessionId)
    ));
    let status = Status { code: Code::Internal, message: "down".to_string() };
    match client.start_session(FirstMessage::Status(status)) {
        Err(ClientError::Rpc(s)) => assert_eq!(s.message, "down"),
        other => panic!("{other:?}"),
    }
    // a punch order in place of the assignment is a breach of the protocol
    let order = FirstMessage::Message(nat_puncher::server::join::order_punch(&local(1)));
    assert!(matches!(client.start_session(order), Err(ClientError::NoAssignment)));
    assert!(client.session().is_none());

    assert_eq!(client.start_session(assignment(Some(id_to_bytes(99)))).unwrap(), 99);
    assert_eq!(*client.session().as_ref().unwrap().uuid(), 99);
    assert_eq!(client.session().as_ref().unwrap().id(), id_to_bytes(99));
    // a failed start leaves the session as it was
    assert!(client.start_session(FirstMessage::TimedOut).is_err());
    assert_eq!(*client.session().as_ref().unwrap().uuid(), 99);
}

#[test]
fn requests_need_a_session() {
    let client = Client::new();
    assert!(matches!(
        client.create_listing(RustListingNoId { name: "x".to_string() }),
        Err(ClientError::NoSession)
    ));
    assert!(matches!(client.remove_listing(), Err(ClientError::NoSession)));
    assert!(matches!(client.join(1), Err(ClientError::NoSession)));
    let _ = client.get_listings();
}

#[test]
fn requests_carry_the_session_identifier() {
    let mut client = Client::new();
    client
        .start_session(FirstMessage::Message(ServerStreamMessage {
            session_id_assignment: Some(id_to_bytes(7)),
            server_stream_enum: None,
        }))
        .unwrap();
    let add = client.create_listing(RustListingNoId { name: "n".to_string() }).unwrap();
    assert_eq!(add.session_id, id_to_bytes(7));
    assert_eq!(add.listing.unwrap().name, "n");
    assert_eq!(client.remove_listing().unwrap().session_id, id_to_bytes(7));
    let join = client.join(8).unwrap();
    assert_eq!(join.session_id, id_to_bytes(7));
    assert_eq!(join.target_listing_id, id_to_bytes(8));
    let farewell = client.end_session().unwrap();
    assert_eq!(farewell.session_id, id_to_bytes(7));
}

#[test]
fn answers_are_read() {
    assert_eq!(
        Client::listing_created(Reply::Answer(AddListingResponse { listing_id: id_to_bytes(5) }))
            .unwrap(),
        5
    );
    assert!(matches!(
        Client::listing_created(Reply::Answer(AddListingResponse { listing_id: vec![5] })),
        Err(ClientError::BadListingId)
    ));
    assert!(matches!(Client::listing_created(Reply::TimedOut), Err(ClientError::Timeout)));
    let status = || Status { code: Code::AlreadyExists, message: "twice".to_string() };
    assert!(matches!(Client::listing_created(Reply::Status(status())), Err(ClientError::Rpc(_))));
    assert!(Client::listing_removed(Reply::Answer(RemoveListingResponse {})).is_ok());
    assert!(matches!(Client::listing_removed(Reply::TimedOut), Err(ClientError::Timeout)));
    assert!(matches!(Client::listing_removed(Reply::Status(status())), Err(ClientError::Rpc(_))));
    assert!(Client::joined(Reply::Answer(JoinResponse {})).is_ok());
    assert!(matches!(Client::joined(Reply::TimedOut), Err(ClientError::Timeout)));
    assert!(matches!(Client::joined(Reply::Status(status())), Err(ClientError::Rpc(_))));
    assert!(matches!(Client::listings_received(Reply::TimedOut), Err(ClientError::Timeout)));
    assert!(matches!(Client::listings_received(Reply::Status(status())), Err(ClientError::Rpc(_))));
}

#[test]
fn unreadable_listings_are_left_out() {
    let entry = |id: Vec<u8>, name: Option<&str>| Listing {
        id,
        listing_no_id: name.map(|n| ListingNoId { name: n.to_string() }),
    };
    let answer = GetListingsResponse {
        listings: vec![
            entry(id_to_bytes(1), Some("one")),
            entry(vec![1, 2, 3], Some("bad id")),
            entry(id_to_bytes(2), None),
            entry(id_to_bytes(3), Some("three")),
            entry(vec![], None),
        ],
    };
    let listings = Client::listings_received(Reply::Answer(answer)).unwrap();
    assert_eq!(listings.len(), 2);
    assert_eq!((*listings[0].id(), listings[0].inner().name.as_str()), (1, "one"));
    assert_eq!((*listings[1].id(), listings[1].inner().name.as_str()), (3, "three"));
}

#[test]
fn failures_are_sorted_by_kind() {
    let rpc = |code| ClientError::Rpc(Status { code, message: "m".to_string() });
    let cases = [
        (ClientError::NoSession, ErrorKind::Semantic, true, "Not connected"),
        (ClientError::Timeout, ErrorKind::Timeout, true, "Timeout waiting for the server"),
        (ClientError::NoFirstMessage, ErrorKind::Transport, false, "First received message had no contents"),
        (ClientError::NoAssignment, ErrorKind::Protocol, false, "First received message had no session_id"),
        (ClientError::BadSessionId, ErrorKind::Protocol, false, "Received bad session_id from server"),
        (ClientError::BadListingId, ErrorKind::Protocol, false, "Received bad listing_id from server"),
        (rpc(Code::InvalidArgument), ErrorKind::Protocol, false, "Error status: m"),
        (rpc(Code::NotFound), ErrorKind::Semantic, true, "Error status: m"),
        (rpc(Code::AlreadyExists), ErrorKind::Semantic, true, "Error status: m"),
        (rpc(Code::DeadlineExceeded), ErrorKind::Timeout, true, "Error status: m"),
        (rpc(Code::PunchFailed), ErrorKind::PunchFailure, true, "Error status: m"),
        (rpc(Code::Internal), ErrorKind::Transport, false, "Error status: m"),
        (rpc(Code::Other), ErrorKind::Transport, false, "Error status: m"),
    ];
    for (error, kind, recoverable, message) in cases {
        assert_eq!(error.kind(), kind);
        assert_eq!(error.kind().recoverable(), recoverable);
        assert_eq!(error.message(), message);
    }
}

#[test]
fn dispatcher_decides_on_each_message() {
    let punch = |ip: &str, port: u32| {
        ServerEvent::Message(ServerStreamMessage {
            session_id_assignment: None,
            server_stream_enum: Some(ServerStreamEnum::Punch(Punch { ip: ip.to_string(), port })),
        })
    };
    assert!(matches!(dispatch(ServerEvent::Closed), Action::Stop));
    assert!(matches!(dispatch(ServerEvent::Failed), Action::Continue));
    let empty = ServerStreamMessage { session_id_assignment: None, server_stream_enum: None };
    assert!(matches!(dispatch(ServerEvent::Message(empty)), Action::Continue));
    let proxy = ServerStreamMessage {
        session_id_assignment: None,
        server_stream_enum: Some(ServerStreamEnum::Proxy(Proxy {})),
    };
    assert!(matches!(dispatch(ServerEvent::Message(proxy)), Action::Unsupported));
    match dispatch(punch("10.0.0.2", 9000)) {
        Action::Punch(addr) => {
            assert_eq!(addr, PublicEndpoint { ip: IpAddress::V4(10, 0, 0, 2), port: 9000 })
        },
        other => panic!("{other:?}"),
    }
    match dispatch(punch("10.0.0", 9000)) {
        Action::Reply(message) => {
            let status = status_of(message);
            assert!(!status.success);
            assert_eq!(status.message.as_deref(), Some("Bad punch addr: Unable to parse ip"));
        },
        other => panic!("{other:?}"),
    }
    match dispatch(punch("10.0.0.2", 70_000)) {
        Action::Reply(message) => {
            let status = status_of(message);
            assert!(!status.success);
            assert_eq!(status.message.as_deref(), Some("Bad punch addr: Unable to coerce port"));
        },
        other => panic!("{other:?}"),
    }
}

#[test]
fn punch_is_reported_to_server_and_host() {
    let (peer, report) = punch_report(local(3), PunchResult::Success);
    assert_eq!(peer, Some(local(3)));
    let status = status_of(report);
    assert!(status.success);
    assert_eq!(status.message, None);
    for (error, text) in [
        (PunchError::Timeout, "Unable to punch: Punch timeout"),
        (PunchError::Socket, "Unable to punch: socket error"),
        (PunchError::Cancelled, "Unable to punch: cancelled"),
    ] {
        let (peer, report) = punch_report(local(3), PunchResult::Failure(error));
        assert_eq!(peer, None);
        let status = status_of(report);
        assert!(!status.success);
        assert_eq!(status.message.as_deref(), Some(text));
    }
}

#[test]
fn keepalive_is_empty_and_comes_every_interval() {
    assert!(keepalive().client_stream_enum.is_none());
    assert_eq!(KEEPALIVE_INTERVAL, 55_000);
    assert_eq!(next_keepalive(0), 55_000);
    assert_eq!(next_keepalive(1_000), 56_000);
    assert_eq!(next_keepalive(u64::MAX - 5), u64::MAX);
}

#[test]
fn stopped_handler_orders_nothing() {
    let mut handler = StreamHandler::new(local(4));
    assert!(!handler.is_stopped());
    let (message, next) = handler.keepalive(10).unwrap();
    assert!(message.client_stream_enum.is_none());
    assert_eq!(next, 55_010);
    assert!(matches!(
        handler.handle_order(ServerEvent::Message(order_punch(&local(5)))),
        Action::Punch(_)
    ));
    let engine = handler.punch(Punch { ip: "127.0.0.1".to_string(), port: 5 }, 20).unwrap();
    assert_eq!(engine.target(), local(5));
    assert_eq!(engine.bind_addr(), local(4));
    assert!(handler.punch(Punch { ip: "x".to_string(), port: 5 }, 20).is_err());
    assert_eq!(handler.proxy(Proxy {}), Err(OrderError::Unimplemented));

    handler.stop();
    assert!(handler.is_stopped());
    assert!(handler.keepalive(20).is_none());
    assert!(matches!(
        handler.handle_order(ServerEvent::Message(order_punch(&local(5)))),
        Action::Stop
    ));
    assert!(matches!(handler.handle_order(ServerEvent::Failed), Action::Stop));
}

#[test]
fn session_hands_back_its_identifier() {
    let session = Session::start(0x0102);
    assert_eq!(*session.uuid(), 0x0102);
    assert_eq!(session.id(), id_to_bytes(0x0102));
    assert_eq!(session.end(), 0x0102);
}

#[test]
fn flag_tells_of_a_change_once() {
    let mut flag = AsyncFlag::new_bool("connection_changed", false);
    assert_eq!(flag.poll(Some(&false)), None);
    assert_eq!(flag.poll(None), None);
    assert_eq!(flag.poll(Some(&true)), Some(("connection_changed".to_string(), true)));
    assert_eq!(flag.poll(Some(&true)), None);
    assert_eq!(flag.poll(None), None);
    assert_eq!(flag.poll(Some(&false)), Some(("connection_changed".to_string(), false)));

    let mut flag: AsyncFlag<Option<String>> = AsyncFlag::new_opt("owned_listing_changed");
    assert_eq!(flag.poll(Some(&None)), None);
    let id = Some("abc".to_string());
    assert_eq!(flag.poll(Some(&id)), Some(("owned_listing_changed".to_string(), id.clone())));
    assert_eq!(flag.poll(Some(&id)), None);
    assert_eq!(flag.poll(Some(&None)), Some(("owned_listing_changed".to_string(), None)));
}

#[test]
fn join_finds_timed_out_sessions_and_refuses() {
    let mut server = PuncherServer::with_session_timeout(60_000);
    server.insert_session(1, local(1), 0).unwrap();
    server.insert_session(2, local(2), 50_000).unwrap();
    let request = nat_puncher::proto::AddListingRequest {
        session_id: id_to_bytes(1),
        listing: Some(ListingNoId { name: "old".to_string() }),
    };
    server.add_listing_with(request, false, 10, 0).unwrap();
    let join = || nat_puncher::proto::JoinRequest {
        session_id: id_to_bytes(2),
        target_listing_id: id_to_bytes(10),
    };
    // the owner has been silent for too long: it is removed with its listing
    assert_eq!(server.join(join(), 70_000).unwrap_err(), Rejection::SessionExpired);
    assert_eq!(server.session_count(), 1);
    assert!(server.listings().is_empty());
    assert_eq!(server.join(join(), 70_000).unwrap_err(), Rejection::ListingNotFound);
    // and so is a joiner that has been silent for too long
    assert_eq!(server.join(join(), 120_000).unwrap_err(), Rejection::SessionExpired);
    assert_eq!(server.session_count(), 0);
}

#[test]
fn listing_can_be_joined_again_and_again() {
    let mut server = PuncherServer::default();
    let owner = test_client(&mut server, 7001);
    let first = test_client(&mut server, 7002);
    let second = test_client(&mut server, 7003);
    let answer = server
        .add_listing(owner.create_listing(RustListingNoId { name: "open".to_string() }).unwrap(), 0)
        .unwrap();
    let listing = Client::listing_created(Reply::Answer(answer)).unwrap();
    for (joiner, port) in [(&first, 7002), (&second, 7003), (&first, 7002)] {
        let orders = server.join(joiner.join(listing).unwrap(), 1).unwrap();
        assert_eq!(orders.joiner, *joiner.session().as_ref().unwrap().uuid());
        assert_eq!(orders.target, *owner.session().as_ref().unwrap().uuid());
        match (orders.joiner_order.server_stream_enum, orders.target_order.server_stream_enum) {
            (Some(ServerStreamEnum::Punch(to_owner)), Some(ServerStreamEnum::Punch(to_joiner))) => {
                assert_eq!((to_owner.ip.as_str(), to_owner.port), ("127.0.0.1", 7001));
                assert_eq!((to_joiner.ip.as_str(), to_joiner.port), ("127.0.0.1", port));
            },
            other => panic!("{other:?}"),
        }
        assert_eq!(server.listings().len(), 1);
    }
    // the owner may join its own listing: both orders name its own endpoint
    let orders = server.join(owner.join(listing).unwrap(), 1).unwrap();
    assert_eq!(orders.joiner, orders.target);
}

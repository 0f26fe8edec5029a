use nat_puncher::addr::{IpAddress, PublicEndpoint};
use nat_puncher::client::engine::{
    punch, punch_nat, punch_packet, PunchAction, PunchEngine, PunchEvent, MAX_PROBES,
    PUNCH_INTERVAL,
};
use nat_puncher::client::session::{PunchError, PunchResult};
use nat_puncher::TIMEOUT;

fn local(port: u16) -> PublicEndpoint {
    PublicEndpoint { ip: IpAddress::V4(127, 0, 0, 1), port }
}

/// Drives one peer for one tick at `now`. Returns whether it sent a probe.
fn tick(engine: &mut PunchEngine, arrived: bool, now: u64) -> bool {
    let event = if arrived { PunchEvent::Received } else { PunchEvent::Tick };
    matches!(engine.step(event, now), PunchAction::Send { .. })
}

#[test]
fn punching() {
    let bind_a = local(5001);
    let bind_b = local(5002);
    let mut a = punch_nat(bind_b, bind_a, 0);
    let mut b = punch_nat(bind_a, bind_b, 0);

    // both peers run side by side; a probe sent in one tick arrives in the next
    let mut to_a = false;
    let mut to_b = false;
    let mut now = 0;
    while a.outcome().is_none() || b.outcome().is_none() {
        let sent_by_a = tick(&mut a, to_a, now);
        let sent_by_b = tick(&mut b, to_b, now);
        to_b = sent_by_a;
        to_a = sent_by_b;
        now += 10;
        assert!(now <= TIMEOUT);
    }

    let (a, b) = (a.outcome().unwrap(), b.outcome().unwrap());
    assert!(a == PunchResult::Success && b == PunchResult::Success, "a: {a:?}, \nb: {b:?}");
}

#[test]
fn probe_is_the_word_punch() {
    assert_eq!(punch_packet(), b"punch".to_vec());
    assert_eq!(punch_packet(), vec![0x70, 0x75, 0x6E, 0x63, 0x68]);
}

#[test]
fn punch_binds_to_any_address() {
    let engine = punch(local(1), 7);
    assert_eq!(engine.target(), local(1));
    assert_eq!(engine.bind_addr(), PublicEndpoint { ip: IpAddress::V4(0, 0, 0, 0), port: 0 });
    assert_eq!(engine.sent(), 0);
    assert_eq!(engine.outcome(), None);
    let engine = punch_nat(local(1), local(2), 7);
    assert_eq!(engine.bind_addr(), local(2));
}

#[test]
fn probes_go_out_every_interval_until_the_bound() {
    let start = 1_000;
    let mut engine = punch(local(1), start);
    let mut sends = Vec::new();
    let mut now = start;
    loop {
        match engine.step(PunchEvent::Tick, now) {
            PunchAction::Send { until } => {
                sends.push(now);
                assert_eq!(until, (now + PUNCH_INTERVAL).min(start + TIMEOUT));
            },
            PunchAction::Wait { until } => {
                assert!(until > now);
                assert_eq!(until, (sends.last().unwrap() + PUNCH_INTERVAL).min(start + TIMEOUT));
            },
            PunchAction::Done(outcome) => {
                assert_eq!(outcome, PunchResult::Failure(PunchError::Timeout));
                break;
            },
        }
        now += 1;
    }
    assert_eq!(now, start + TIMEOUT);
    assert_eq!(sends.len(), 34);
    assert_eq!(engine.sent(), MAX_PROBES);
    for (n, at) in sends.iter().enumerate() {
        assert_eq!(*at, start + n as u64 * PUNCH_INTERVAL);
    }
    assert_eq!(engine.outcome(), Some(PunchResult::Failure(PunchError::Timeout)));
}

#[test]
fn any_datagram_ends_the_punch_with_success() {
    let mut engine = punch(local(1), 0);
    assert!(matches!(engine.step(PunchEvent::Tick, 0), PunchAction::Send { until: 300 }));
    assert!(matches!(engine.step(PunchEvent::Tick, 100), PunchAction::Wait { until: 300 }));
    assert_eq!(engine.step(PunchEvent::Received, 150), PunchAction::Done(PunchResult::Success));
    // a punch that is over orders nothing more
    for event in [PunchEvent::Tick, PunchEvent::Received, PunchEvent::SendFailed, PunchEvent::SocketFailed] {
        assert_eq!(engine.step(event, 20_000), PunchAction::Done(PunchResult::Success));
    }
    engine.cancel();
    assert_eq!(engine.outcome(), Some(PunchResult::Success));
    assert_eq!(engine.sent(), 1);
}

#[test]
fn failed_send_is_tried_again_at_the_next_interval() {
    let mut engine = punch(local(1), 0);
    assert!(matches!(engine.step(PunchEvent::Tick, 0), PunchAction::Send { .. }));
    assert_eq!(engine.step(PunchEvent::SendFailed, 1), PunchAction::Wait { until: 300 });
    assert_eq!(engine.step(PunchEvent::Tick, 299), PunchAction::Wait { until: 300 });
    assert_eq!(engine.step(PunchEvent::Tick, 300), PunchAction::Send { until: 600 });
    assert_eq!(engine.sent(), 2);
}

#[test]
fn socket_failure_and_cancelling_end_the_punch() {
    let mut engine = punch(local(1), 0);
    assert_eq!(
        engine.step(PunchEvent::SocketFailed, 0),
        PunchAction::Done(PunchResult::Failure(PunchError::Socket))
    );
    let mut engine = punch(local(1), 0);
    engine.step(PunchEvent::Tick, 0);
    engine.cancel();
    assert_eq!(
        engine.step(PunchEvent::Tick, 300),
        PunchAction::Done(PunchResult::Failure(PunchError::Cancelled))
    );
    assert_eq!(
        engine.step(PunchEvent::Received, 301),
        PunchAction::Done(PunchResult::Failure(PunchError::Cancelled))
    );
    assert_eq!(engine.sent(), 1);
}

#[test]
fn clock_that_moves_back_does_not_rewind_the_punch() {
    let mut engine = punch(local(1), 1_000);
    assert!(matches!(engine.step(PunchEvent::Tick, 1_000), PunchAction::Send { .. }));
    assert_eq!(engine.step(PunchEvent::Tick, 1_200), PunchAction::Wait { until: 1_300 });
    assert_eq!(engine.step(PunchEvent::Tick, 500), PunchAction::Wait { until: 1_300 });
    assert_eq!(
        engine.step(PunchEvent::Tick, 11_000),
        PunchAction::Done(PunchResult::Failure(PunchError::Timeout))
    );
}

#[test]
fn wake_time_stops_at_the_end_of_time() {
    let mut engine = punch(local(1), u64::MAX - 100);
    assert_eq!(engine.step(PunchEvent::Tick, u64::MAX - 100), PunchAction::Send { until: u64::MAX });
}

use smokeping::hub::{BroadcastHub, Received};
use smokeping::prober::{telemetry_point, DisableReason, Prober, ProberAction, ProberEvent, ProberState};
use smokeping::routes::{delivery_for, Delivery};
use smokeping::sample::{LiveEvent, ProbeOutcome, Sample};
use smokeping::target::Model;

fn target(id: i32, host: &str, interval: i32) -> Model {
    Model {
        id,
        name: "t".to_string(),
        host: host.to_string(),
        probe_type: "icmp".to_string(),
        probe_interval_secs: interval,
        is_active: true,
        created_at_micros: 0,
    }
}

fn started(p: &mut Prober) -> ProberAction {
    p.handle(ProberEvent::Started { facility_ok: true, host_ok: true })
}

#[test]
fn lost_probe_is_zero_rtt() {
    let s = Sample::from_outcome(3, ProbeOutcome::NoReply);
    assert_eq!(s, Sample { target_id: 3, is_lost: true, rtt_us: 0 });
    let r = Sample::from_outcome(3, ProbeOutcome::Reply { rtt_us: 12 });
    assert_eq!(r, Sample { target_id: 3, is_lost: false, rtt_us: 12 });
    let fast = Sample::from_outcome(3, ProbeOutcome::Reply { rtt_us: 0 });
    assert_eq!(fast, Sample { target_id: 3, is_lost: false, rtt_us: 1 });
}

#[test]
fn one_sample_per_tick() {
    let mut p = Prober::new(&target(2, "10.0.0.1", 5));
    assert_eq!(p.period_secs(), Some(5));
    assert_eq!(started(&mut p), ProberAction::WaitTick);
    let outcomes = [
        ProbeOutcome::Reply { rtt_us: 4 },
        ProbeOutcome::NoReply,
        ProbeOutcome::Reply { rtt_us: 9 },
    ];
    let mut published = Vec::new();
    for o in outcomes {
        assert_eq!(p.handle(ProberEvent::Tick), ProberAction::Probe);
        assert_eq!(p.handle(ProberEvent::Tick), ProberAction::Idle);
        match p.handle(ProberEvent::Probed(o)) {
            ProberAction::Publish(s) => published.push(s),
            other => panic!("unexpected {:?}", other),
        }
        assert_eq!(p.state, ProberState::Armed);
    }
    assert_eq!(published.len(), 3);
    assert_eq!(published[1], Sample { target_id: 2, is_lost: true, rtt_us: 0 });
    assert_eq!(published[2].rtt_us, 9);
}

#[test]
fn failed_start_disables() {
    let mut p = Prober::new(&target(1, "x", 1));
    let a = p.handle(ProberEvent::Started { facility_ok: true, host_ok: false });
    assert_eq!(a, ProberAction::Report(DisableReason::InvalidHost));
    assert_eq!(p.handle(ProberEvent::Tick), ProberAction::Idle);
    assert_eq!(p.state, ProberState::Disabled);

    let mut q = Prober::new(&target(1, "1.1.1.1", 1));
    let a = q.handle(ProberEvent::Started { facility_ok: false, host_ok: true });
    assert_eq!(a, ProberAction::Report(DisableReason::FacilityUnavailable));

    let mut z = Prober::new(&target(1, "1.1.1.1", 0));
    assert_eq!(z.period_secs(), None);
    let a = z.handle(ProberEvent::Started { facility_ok: true, host_ok: true });
    assert_eq!(a, ProberAction::Report(DisableReason::InvalidInterval));
}

#[test]
fn telemetry_point_tags() {
    let p = telemetry_point(&Sample { target_id: -42, is_lost: true, rtt_us: 0 });
    assert_eq!(p.measurement, "probe_data");
    assert_eq!(p.target_id_tag, "-42");
    assert_eq!(p.is_lost_tag, "true");
    let q = telemetry_point(&Sample { target_id: 1234, is_lost: false, rtt_us: 17 });
    assert_eq!(q.target_id_tag, "1234");
    assert_eq!(q.is_lost_tag, "false");
    assert_eq!(q.rtt_us, 17);
    let m = telemetry_point(&Sample { target_id: i32::MIN, is_lost: false, rtt_us: 1 });
    assert_eq!(m.target_id_tag, "-2147483648");
    let z = telemetry_point(&Sample { target_id: 0, is_lost: false, rtt_us: 1 });
    assert_eq!(z.target_id_tag, "0");
}

#[test]
fn end_to_end_live_event() {
    let mut hub = BroadcastHub::new();
    let sub = hub.subscribe().unwrap();
    let mut p = Prober::new(&target(7, "127.0.0.1", 1));
    assert_eq!(started(&mut p), ProberAction::WaitTick);
    assert_eq!(p.handle(ProberEvent::Tick), ProberAction::Probe);
    // A loopback reply well under a millisecond.
    let sample = match p.handle(ProberEvent::Probed(ProbeOutcome::Reply { rtt_us: 42 })) {
        ProberAction::Publish(s) => s,
        other => panic!("unexpected {:?}", other),
    };
    hub.publish(sample.to_live_event());
    match delivery_for(hub.recv(sub)) {
        Delivery::Forward(e) => {
            assert_eq!(e.target_id, 7);
            assert!(!e.is_lost);
            assert!(e.rtt_us > 0);
            assert_eq!(e, LiveEvent { target_id: 7, is_lost: false, rtt_us: 42 });
            let ms = e.rtt_us as f64 / 1000.0;
            assert!(ms > 0.0 && ms < 1.0);
        }
        other => panic!("unexpected {:?}", other),
    }
    assert_eq!(delivery_for(hub.recv(sub)), Delivery::Wait);
    assert_eq!(delivery_for(Received::Gap { missed: 3 }), Delivery::Skip);
    assert_eq!(delivery_for(Received::Closed), Delivery::Stop);
}

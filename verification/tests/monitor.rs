use pingmon::aggregator::AddressFamily;
use pingmon::aggregator::Aggregator;
use pingmon::aggregator::CombinedState;
use pingmon::aggregator::Event;
use pingmon::aggregator::combine;
use pingmon::prober::ProbeOutcome;
use pingmon::prober::Prober;
use pingmon::timefmt::format_hms;

#[test]
fn prober_hysteresis_two() {
    let mut p = Prober::new(2);
    assert!(!p.observe(ProbeOutcome::Failure));
    assert!(p.observe(ProbeOutcome::Failure));
    assert!(p.observe(ProbeOutcome::Failure));
    assert!(!p.observe(ProbeOutcome::Success));
    assert!(!p.observe(ProbeOutcome::Failure));
}

#[test]
fn prober_single_failure_with_unit_threshold() {
    let mut p = Prober::new(1);
    assert!(p.observe(ProbeOutcome::Failure));
    assert!(!p.observe(ProbeOutcome::Success));
    assert!(p.observe(ProbeOutcome::Failure));
}

#[test]
fn prober_signal_rises_exactly_at_threshold() {
    let mut p = Prober::new(3);
    let outcomes = [
        ProbeOutcome::Failure,
        ProbeOutcome::Failure,
        ProbeOutcome::Success,
        ProbeOutcome::Failure,
        ProbeOutcome::Failure,
        ProbeOutcome::Failure,
        ProbeOutcome::Failure,
        ProbeOutcome::Success,
    ];
    let expected = [false, false, false, false, false, true, true, false];
    for i in 0..outcomes.len() {
        assert_eq!(p.observe(outcomes[i]), expected[i]);
    }
}

#[test]
fn combine_is_the_documented_mapping() {
    assert_eq!(combine(false, false), CombinedState::Healthy);
    assert_eq!(combine(true, false), CombinedState::V4Down);
    assert_eq!(combine(false, true), CombinedState::V6Down);
    assert_eq!(combine(true, true), CombinedState::FullyDown);
}

#[test]
fn aggregator_v4_outage_and_recovery() {
    // Hysteresis 2 upstream: first failure sends "not down", second sends
    // "down", the next success sends "not down". IPv6 never fails.
    let mut a = Aggregator::new();
    assert_eq!(a.update(AddressFamily::V6, false, 0), vec![]);
    assert_eq!(a.update(AddressFamily::V4, false, 0), vec![]);
    // first IPv4 failure: still below threshold, no event
    assert_eq!(a.update(AddressFamily::V4, false, 15), vec![]);
    // second consecutive failure: the family goes down
    let down = a.update(AddressFamily::V4, true, 30);
    assert_eq!(down, vec![Event::FamilyDown { family: AddressFamily::V4 }]);
    assert_eq!(down[0].message(), "IPv4 is down!");
    assert!(down[0].is_error_level());
    // next success: recovery, with the outage duration
    let up = a.update(AddressFamily::V4, false, 45);
    assert_eq!(
        up,
        vec![Event::FamilyUp { family: AddressFamily::V4, duration: Some(15) }]
    );
    assert_eq!(up[0].message(), "IPv4 is back online, and was down for 00:00:15");
    assert!(!up[0].is_error_level());
}

#[test]
fn aggregator_suppresses_unchanged_state() {
    let mut a = Aggregator::new();
    assert_eq!(
        a.update(AddressFamily::V4, true, 1),
        vec![Event::FamilyDown { family: AddressFamily::V4 }]
    );
    // the signal is level-triggered and keeps coming; no further events
    assert_eq!(a.update(AddressFamily::V4, true, 2), vec![]);
    assert_eq!(a.update(AddressFamily::V4, true, 3), vec![]);
    assert_eq!(a.update(AddressFamily::V6, false, 4), vec![]);
}

#[test]
fn aggregator_fully_down_is_one_event() {
    let mut a = Aggregator::new();
    assert_eq!(
        a.update(AddressFamily::V4, true, 10),
        vec![Event::FamilyDown { family: AddressFamily::V4 }]
    );
    // the second family reaching its threshold yields exactly the one
    // fully-down event, not a separate per-family event
    let both = a.update(AddressFamily::V6, true, 11);
    assert_eq!(both, vec![Event::FullyDown]);
    assert_eq!(both[0].message(), "network is down!");
    assert!(both[0].is_error_level());
    assert_eq!(a.update(AddressFamily::V6, true, 12), vec![]);
}

#[test]
fn aggregator_interleaving_uses_latest_known_other_value() {
    // IPv4 reports down, down, up, down; IPv6 reports down once in between.
    let mut a = Aggregator::new();
    a.update(AddressFamily::V4, true, 1);
    assert_eq!(combine(a.v4_down, a.v6_down), CombinedState::V4Down);
    assert_eq!(a.update(AddressFamily::V4, true, 2), vec![]);
    a.update(AddressFamily::V6, true, 3);
    assert_eq!(combine(a.v4_down, a.v6_down), CombinedState::FullyDown);
    // IPv4 recovers while IPv6's latest known value is still "down"
    let up = a.update(AddressFamily::V4, false, 4);
    assert_eq!(
        up,
        vec![Event::FamilyUp { family: AddressFamily::V4, duration: Some(3) }]
    );
    assert_eq!(combine(a.v4_down, a.v6_down), CombinedState::V6Down);
    // IPv4 goes down again: both are down again
    assert_eq!(a.update(AddressFamily::V4, true, 5), vec![Event::FullyDown]);
    assert_eq!(combine(a.v4_down, a.v6_down), CombinedState::FullyDown);
}

#[test]
fn aggregator_duration_is_wall_clock_not_ticks() {
    let mut a = Aggregator::new();
    a.update(AddressFamily::V4, true, 100);
    // many further ticks pass without a state change
    a.update(AddressFamily::V4, true, 1000);
    a.update(AddressFamily::V6, false, 2000);
    a.update(AddressFamily::V4, true, 7000);
    let up = a.update(AddressFamily::V4, false, 7325);
    assert_eq!(
        up,
        vec![Event::FamilyUp { family: AddressFamily::V4, duration: Some(7225) }]
    );
    assert_eq!(up[0].message(), "IPv4 is back online, and was down for 02:00:25");
}

#[test]
fn aggregator_leaving_fully_down_reports_recovered_family() {
    let mut a = Aggregator::new();
    a.update(AddressFamily::V4, true, 5);
    a.update(AddressFamily::V6, true, 8);
    let up = a.update(AddressFamily::V6, false, 20);
    assert_eq!(
        up,
        vec![Event::FamilyUp { family: AddressFamily::V6, duration: Some(12) }]
    );
    assert_eq!(up[0].message(), "IPv6 is back online, and was down for 00:00:12");
    assert_eq!(combine(a.v4_down, a.v6_down), CombinedState::V4Down);
}

#[test]
fn event_messages_without_duration() {
    let e = Event::FamilyUp { family: AddressFamily::V6, duration: None };
    assert_eq!(e.message(), "IPv6 is back online");
    let f = Event::FullyUp { duration: None };
    assert_eq!(f.message(), "network is back online");
    let g = Event::FullyUp { duration: Some(61) };
    assert_eq!(g.message(), "network is back online, and was down for 00:01:01");
    assert!(!e.is_error_level());
    assert!(!f.is_error_level());
}

#[test]
fn hysteresis_two_end_to_end_scenario() {
    // IPv4 fails twice consecutively then succeeds; IPv6 never fails.
    // Expected: no event at the first failure, "IPv4 is down!" at the
    // second, "IPv4 is back online, ..." at the next success, and no IPv6
    // event ever.
    let mut v4 = Prober::new(2);
    let mut v6 = Prober::new(2);
    let mut a = Aggregator::new();
    let v4_outcomes = [ProbeOutcome::Failure, ProbeOutcome::Failure, ProbeOutcome::Success];
    let mut log: Vec<String> = vec![];
    for tick in 0..3u64 {
        let now = tick * 15;
        let v4_signal = v4.observe(v4_outcomes[tick as usize]);
        for e in a.update(AddressFamily::V4, v4_signal, now) {
            log.push(e.message());
        }
        let v6_signal = v6.observe(ProbeOutcome::Success);
        for e in a.update(AddressFamily::V6, v6_signal, now) {
            log.push(e.message());
        }
    }
    assert_eq!(
        log,
        vec![
            String::from("IPv4 is down!"),
            String::from("IPv4 is back online, and was down for 00:00:15"),
        ]
    );
}

#[test]
fn format_hms_pads_and_carries() {
    assert_eq!(format_hms(0), "00:00:00");
    assert_eq!(format_hms(5), "00:00:05");
    assert_eq!(format_hms(59), "00:00:59");
    assert_eq!(format_hms(60), "00:01:00");
    assert_eq!(format_hms(61), "00:01:01");
    assert_eq!(format_hms(3600), "01:00:00");
    assert_eq!(format_hms(3661), "01:01:01");
    assert_eq!(format_hms(86399), "23:59:59");
    assert_eq!(format_hms(360000), "100:00:00");
    assert_eq!(format_hms(362445), "100:40:45");
}

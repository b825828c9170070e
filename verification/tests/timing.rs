use bfi::timing::{BlinkState, Controller, LoopEvent, StepOutcome, TARGET_INTERVAL_NS};

#[test]
fn target_interval_matches_frequency() {
    // The compile-time constant is the whole-nanosecond half-period of a
    // 239.1 Hz flip schedule.
    let expected: u64 = ((1000f64 / 239.1f64) * 1_000_000.0) as u64;
    assert_eq!(TARGET_INTERVAL_NS, expected);
    assert_eq!(TARGET_INTERVAL_NS, 4_182_350);
}

#[test]
fn new_controller_starts_opaque() {
    let c = Controller::new(TARGET_INTERVAL_NS, 42);
    assert_eq!(c.interval_ns, TARGET_INTERVAL_NS);
    assert_eq!(c.last_flip_ns, 42);
    assert_eq!(c.state, BlinkState::Opaque);
}

#[test]
fn scenario_239_hz() {
    // Starting opaque at t = 0 with the 239.1 Hz half-period (~4.184 ms).
    let mut c = Controller::new(TARGET_INTERVAL_NS, 0);

    // A tick at 4 ms: the opaque dwell (~12.55 ms) has not elapsed.
    assert_eq!(c.handle_tick(4_000_000), None);
    assert_eq!(c.state, BlinkState::Opaque);
    assert_eq!(c.last_flip_ns, 0);

    // A tick at 13 ms: flip to transparent, opacity 0.
    assert_eq!(c.handle_tick(13_000_000), Some(0));
    assert_eq!(c.state, BlinkState::Transparent);
    assert_eq!(c.last_flip_ns, 12_547_050); // 3 whole intervals past t = 0

    // A tick at 17.5 ms: ~4.95 ms since the corrected flip time, so the
    // transparent dwell (~4.184 ms) has elapsed: flip back, opacity 255.
    assert_eq!(c.handle_tick(17_500_000), Some(255));
    assert_eq!(c.state, BlinkState::Opaque);
    assert_eq!(c.last_flip_ns, 16_729_400); // 4 whole intervals past t = 0
}

#[test]
fn early_tick_is_noop() {
    let mut c = Controller::new(1_000, 0);
    // Opaque needs 3 intervals of dwell; nothing before that changes state.
    for now in [0u64, 1, 500, 1_500, 2_999] {
        assert_eq!(c.handle_tick(now), None);
        assert_eq!(c.state, BlinkState::Opaque);
        assert_eq!(c.last_flip_ns, 0);
    }
    // Same once transparent, with its one-interval dwell.
    assert_eq!(c.handle_tick(3_000), Some(0));
    let after_flip = c.last_flip_ns;
    for now in [after_flip, after_flip + 1, after_flip + 999] {
        assert_eq!(c.handle_tick(now), None);
        assert_eq!(c.state, BlinkState::Transparent);
        assert_eq!(c.last_flip_ns, after_flip);
    }
}

#[test]
fn dwell_boundaries_are_inclusive() {
    // A tick exactly at 3 intervals flips the opaque phase.
    let mut c = Controller::new(1_000, 0);
    assert_eq!(c.handle_tick(3_000), Some(0));
    assert_eq!(c.state, BlinkState::Transparent);
    assert_eq!(c.last_flip_ns, 2_000);
    // A tick exactly one interval later flips the transparent phase.
    assert_eq!(c.handle_tick(3_000), Some(255));
    assert_eq!(c.state, BlinkState::Opaque);
    assert_eq!(c.last_flip_ns, 2_000);
}

#[test]
fn stall_collapses_to_single_flip() {
    // The clock advances by 10 intervals between ticks: exactly one flip,
    // and the timestamp catches up to within one interval of now.
    let mut c = Controller::new(1_000, 0);
    assert_eq!(c.handle_tick(10_000), Some(0));
    assert_eq!(c.state, BlinkState::Transparent); // one toggle, not ten
    assert_eq!(c.last_flip_ns, 9_000);
    assert!(10_000 - c.last_flip_ns <= 1_000);
}

#[test]
fn drift_bound_after_each_flip() {
    let mut c = Controller::new(1_000, 0);
    let ticks: [u64; 7] = [900, 3_001, 3_500, 10_500, 11_700, 12_800, 13_801];
    for now in ticks {
        let flipped = c.handle_tick(now).is_some();
        if flipped {
            assert!(c.last_flip_ns <= now);
            assert!(now - c.last_flip_ns <= 1_000);
            if (now - 0) % 1_000 != 0 {
                // Ticks off the schedule grid leave a strict lag.
                assert!(now - c.last_flip_ns < 1_000);
            }
        }
    }
    // A tick whose elapsed time is an exact multiple of the interval may
    // leave the timestamp lagging by exactly one interval.
    let mut c2 = Controller::new(1_000, 0);
    assert_eq!(c2.handle_tick(3_000), Some(0));
    assert_eq!(3_000 - c2.last_flip_ns, 1_000);
}

#[test]
fn duty_cycle_three_to_one() {
    // Dense ticks (every 100 ns, just off the grid): the flip timestamps
    // stay on the grid and the opaque phase holds three grid intervals for
    // every one the transparent phase holds.
    let mut c = Controller::new(1_000, 0);
    let mut opaque_dwell: u64 = 0;
    let mut transparent_dwell: u64 = 0;
    let mut prev_flip: u64 = 0;
    let mut flips: u32 = 0;
    let mut now: u64 = 1;
    while flips < 8 {
        let before = c.state;
        if c.handle_tick(now).is_some() {
            let dwell: u64 = c.last_flip_ns - prev_flip;
            match before {
                BlinkState::Opaque => opaque_dwell += dwell,
                BlinkState::Transparent => transparent_dwell += dwell,
            }
            prev_flip = c.last_flip_ns;
            flips += 1;
        }
        now += 100;
    }
    // Four full cycles: 12000 ns opaque, 4000 ns transparent.
    assert_eq!(opaque_dwell, 12_000);
    assert_eq!(transparent_dwell, 4_000);
    assert_eq!(opaque_dwell, 3 * transparent_dwell);
}

#[test]
fn step_observes_shutdown_first() {
    let mut c = Controller::new(1_000, 0);
    // Shutdown observed: nothing changes, even though a flip was due.
    assert_eq!(c.step(true, 5_000), StepOutcome::Stop);
    assert_eq!(c.state, BlinkState::Opaque);
    assert_eq!(c.last_flip_ns, 0);
    // Without shutdown the tick is handled as usual.
    assert_eq!(c.step(false, 5_000), StepOutcome::Continue(Some(0)));
    assert_eq!(c.state, BlinkState::Transparent);
    assert_eq!(c.last_flip_ns, 4_000);
}

#[test]
fn run_stops_at_shutdown() {
    let mut c = Controller::new(1_000, 0);
    let events = vec![
        LoopEvent { shutdown: false, now_ns: 500 },
        LoopEvent { shutdown: false, now_ns: 3_500 },
        LoopEvent { shutdown: true, now_ns: 3_600 },
        LoopEvent { shutdown: false, now_ns: 10_000 },
    ];
    let actions = c.run(&events);
    // One entry per iteration before the shutdown observation, none after.
    assert_eq!(actions, vec![None, Some(0)]);
    // The controller did not advance past the iteration that stopped it.
    assert_eq!(c.state, BlinkState::Transparent);
    assert_eq!(c.last_flip_ns, 3_000);
}

#[test]
fn run_without_shutdown_processes_all_ticks() {
    let mut c = Controller::new(1_000, 0);
    let events = vec![
        LoopEvent { shutdown: false, now_ns: 2_000 },
        LoopEvent { shutdown: false, now_ns: 3_100 },
        LoopEvent { shutdown: false, now_ns: 4_200 },
    ];
    let actions = c.run(&events);
    assert_eq!(actions, vec![None, Some(0), Some(255)]);
    assert_eq!(c.state, BlinkState::Opaque);
    assert_eq!(c.last_flip_ns, 4_000);
}

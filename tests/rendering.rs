use status_leds::color::{navigation_frame, ramp_frame, uniform_frame, Frame, Rgb, NUM_LEDS};
use status_leds::controller::{Action, Controller, Outcome, Phase};
use status_leds::flight_mode::FlightMode;
use status_leds::mailbox::ModeSlot;

const GREEN: Rgb = Rgb { r: 0x00, g: 0xff, b: 0x00 };
const RED: Rgb = Rgb { r: 0xff, g: 0x00, b: 0x00 };
const ORANGE: Rgb = Rgb { r: 0xff, g: 0x90, b: 0x00 };
const OFF: Rgb = Rgb { r: 0x00, g: 0x00, b: 0x00 };

fn expect_transmit(a: Action) -> Frame {
    match a {
        Action::Transmit(f) => f,
        other => panic!("expected a frame, got {:?}", other),
    }
}

fn expect_wait(a: Action) -> u64 {
    match a {
        Action::Wait(ms) => ms,
        other => panic!("expected a wait, got {:?}", other),
    }
}

fn expect_poll(a: Action) {
    match a {
        Action::Poll => {}
        other => panic!("expected a poll, got {:?}", other),
    }
}

/// Runs the boot sequence, reporting every transmission with `ok`; returns
/// the waits and frames seen.
fn run_boot(c: &mut Controller, ok: bool) -> (u64, Vec<Frame>) {
    let mut waited = 0u64;
    let mut frames = Vec::new();
    loop {
        match c.action() {
            Action::Wait(ms) => {
                waited += ms;
                c.advance(Outcome::Elapsed);
            }
            Action::Transmit(f) => {
                frames.push(f);
                c.advance(Outcome::Sent { ok });
            }
            Action::Poll => return (waited, frames),
        }
    }
}

/// One rendering cycle from the poll: returns the actions up to the next poll.
fn run_cycle(c: &mut Controller, received: Option<FlightMode>) -> Vec<Action> {
    expect_poll(c.action());
    c.advance(Outcome::Received(received));
    let mut acts = Vec::new();
    loop {
        let a = c.action();
        match a {
            Action::Poll => return acts,
            Action::Wait(_) => c.advance(Outcome::Elapsed),
            Action::Transmit(_) => c.advance(Outcome::Sent { ok: true }),
        }
        acts.push(a);
    }
}

#[test]
fn color_table() {
    assert_eq!(FlightMode::Idle.color(), GREEN);
    assert_eq!(FlightMode::HardwareArmed.color(), ORANGE);
    assert_eq!(FlightMode::Armed.color(), RED);
    assert_eq!(FlightMode::ArmedLaunchImminent.color(), RED);
    assert_eq!(FlightMode::Burn.color(), OFF);
    assert_eq!(FlightMode::Landed.color(), OFF);
}

#[test]
fn burn_threshold() {
    assert!(!FlightMode::Idle.is_launched());
    assert!(!FlightMode::ArmedLaunchImminent.is_launched());
    assert!(FlightMode::Burn.is_launched());
    assert!(FlightMode::Coast.is_launched());
    assert!(FlightMode::Landed.is_launched());
    assert!(FlightMode::Idle.rank() < FlightMode::Burn.rank());
    assert_eq!(FlightMode::default(), FlightMode::Idle);
}

#[test]
fn navigation_pattern_alternates_red_first() {
    let f = navigation_frame();
    assert_eq!(f.len(), NUM_LEDS);
    for (i, c) in f.iter().enumerate() {
        assert_eq!(*c, if i % 2 == 0 { RED } else { GREEN });
    }
}

#[test]
fn uniform_and_ramp_frames() {
    assert_eq!(uniform_frame(ORANGE), [ORANGE; 16]);
    let f = ramp_frame(0);
    assert_eq!(f[0], GREEN);
    assert!(f[1..].iter().all(|c| *c == OFF));
    let f = ramp_frame(6);
    assert!(f[..7].iter().all(|c| *c == GREEN));
    assert!(f[7..].iter().all(|c| *c == OFF));
    assert_eq!(ramp_frame(15), [GREEN; 16]);
}

#[test]
fn boot_sequence_ramps_then_clears() {
    let mut c = Controller::new();
    let mut frames = Vec::new();
    for i in 0..16 {
        assert_eq!(expect_wait(c.action()), 20);
        c.advance(Outcome::Elapsed);
        let f = expect_transmit(c.action());
        for (j, px) in f.iter().enumerate() {
            assert_eq!(*px, if j <= i { GREEN } else { OFF });
        }
        frames.push(f);
        c.advance(Outcome::Sent { ok: true });
    }
    assert_eq!(frames[15], [GREEN; 16]);
    assert_eq!(expect_wait(c.action()), 200);
    c.advance(Outcome::Elapsed);
    assert_eq!(expect_transmit(c.action()), [OFF; 16]);
    c.advance(Outcome::Sent { ok: true });
    assert_eq!(expect_wait(c.action()), 200);
    c.advance(Outcome::Elapsed);
    expect_poll(c.action());
    assert_eq!(c.phase, Phase::Poll);
    assert_eq!(c.mode(), FlightMode::Idle);
}

#[test]
fn boot_sequence_waits_720() {
    let mut c = Controller::new();
    let (waited, frames) = run_boot(&mut c, true);
    assert_eq!(waited, 720);
    assert_eq!(frames.len(), 17);
    assert_eq!(*frames.last().unwrap(), [OFF; 16]);
}

#[test]
fn boot_ignores_transmission_failures() {
    let mut good = Controller::new();
    let mut bad = Controller::new();
    let (w1, f1) = run_boot(&mut good, true);
    let (w2, f2) = run_boot(&mut bad, false);
    assert_eq!(w1, w2);
    assert_eq!(f1, f2);
    assert_eq!(good, bad);
}

#[test]
fn nominal_cycle_holds_100() {
    for mode in [
        FlightMode::Idle,
        FlightMode::HardwareArmed,
        FlightMode::Armed,
        FlightMode::ArmedLaunchImminent,
    ] {
        let mut c = Controller { phase: Phase::Poll, mode };
        let acts = run_cycle(&mut c, None);
        assert_eq!(acts.len(), 2);
        assert_eq!(expect_transmit(acts[0]), [mode.color(); 16]);
        assert_eq!(expect_wait(acts[1]), 100);
        assert_eq!(c, Controller { phase: Phase::Poll, mode });
    }
}

#[test]
fn strobe_cycle_is_one_second() {
    for mode in [FlightMode::Burn, FlightMode::Coast, FlightMode::Landed] {
        let mut c = Controller { phase: Phase::Poll, mode };
        let acts = run_cycle(&mut c, None);
        assert_eq!(acts.len(), 4);
        assert_eq!(expect_transmit(acts[0]), navigation_frame());
        assert_eq!(expect_wait(acts[1]), 50);
        assert_eq!(expect_transmit(acts[2]), [OFF; 16]);
        assert_eq!(expect_wait(acts[3]), 950);
        assert_eq!(c, Controller { phase: Phase::Poll, mode });
    }
}

#[test]
fn failed_transmission_changes_nothing() {
    let mut a = Controller { phase: Phase::Render, mode: FlightMode::Burn };
    let mut b = a;
    a.advance(Outcome::Sent { ok: true });
    b.advance(Outcome::Sent { ok: false });
    assert_eq!(a, b);
    assert_eq!(expect_wait(b.action()), 50);
}

#[test]
fn last_write_wins() {
    let mut slot = ModeSlot::new();
    assert_eq!(slot.try_receive(), None);
    slot.publish(FlightMode::Armed);
    slot.publish(FlightMode::Burn);
    assert_eq!(slot.try_receive(), Some(FlightMode::Burn));
    assert_eq!(slot.try_receive(), None);
}

#[test]
fn empty_polls_keep_mode_and_frame() {
    let mut c = Controller { phase: Phase::Poll, mode: FlightMode::HardwareArmed };
    for _ in 0..50 {
        let acts = run_cycle(&mut c, None);
        assert_eq!(expect_transmit(acts[0]), [ORANGE; 16]);
        assert_eq!(c.mode(), FlightMode::HardwareArmed);
    }
}

#[test]
fn poll_happens_once_per_cycle() {
    let mut c = Controller { phase: Phase::Poll, mode: FlightMode::Burn };
    let acts = run_cycle(&mut c, Some(FlightMode::Landed));
    assert!(acts.iter().all(|a| !matches!(a, Action::Poll)));
    assert_eq!(c.mode(), FlightMode::Landed);
}

#[test]
fn idle_armed_burn_scenario() {
    let mut slot = ModeSlot::new();
    let mut c = Controller::new();
    run_boot(&mut c, true);

    for _ in 0..3 {
        let acts = run_cycle(&mut c, slot.try_receive());
        assert_eq!(expect_transmit(acts[0]), [GREEN; 16]);
        assert_eq!(expect_wait(acts[1]), 100);
    }

    slot.publish(FlightMode::Armed);
    let acts = run_cycle(&mut c, slot.try_receive());
    assert_eq!(expect_transmit(acts[0]), [RED; 16]);
    assert_eq!(expect_wait(acts[1]), 100);

    slot.publish(FlightMode::Burn);
    let acts = run_cycle(&mut c, slot.try_receive());
    assert_eq!(acts.len(), 4);
    assert_eq!(expect_transmit(acts[0]), navigation_frame());
    assert_eq!(expect_wait(acts[1]), 50);
    assert_eq!(expect_transmit(acts[2]), [OFF; 16]);
    assert_eq!(expect_wait(acts[3]), 950);

    let acts = run_cycle(&mut c, slot.try_receive());
    assert_eq!(expect_transmit(acts[0]), navigation_frame());
}

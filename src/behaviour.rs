//! What the state machine does over whole runs: the boot sequence, the two
//! rendering cycles, and its indifference to transmission failures and to
//! empty polls.
use vstd::prelude::*;
use crate::color::{NUM_LEDS, off, green, uniform, navigation, ramp};
use crate::controller::{Act, Controller, Outcome, Phase, observe, total_wait};
use crate::flight_mode::{FlightMode, launched, mode_color};

verus! {

/// A poll outcome that carries a new mode.
pub open spec fn brings_mode(o: Outcome) -> bool {
    match o {
        Outcome::Received(Some(_)) => true,
        _ => false,
    }
}

/// In the actions `t`, ramp step `first + j` is a 20 ms wait followed by
/// the ramp frame with pixels `0..=first + j` lit.
pub open spec fn ramp_step_at(t: Seq<Act>, first: int, j: int) -> bool {
    t[2 * j] == Act::Wait(20) && t[2 * j + 1] == Act::Transmit(ramp(first + j))
}

/// A run asks for one action per outcome.
proof fn lemma_trace_len(c: Controller, os: Seq<Outcome>)
    ensures
        c.trace(os).len() == os.len(),
    decreases os.len(),
{
    if os.len() > 0 {
        lemma_trace_len(c.after(os[0]), os.drop_first());
    }
}

/// One step of a run: the action of the first state, then the rest.
proof fn lemma_step(c: Controller, os: Seq<Outcome>)
    requires
        os.len() > 0,
    ensures
        c.run(os) == c.after(os[0]).run(os.drop_first()),
        c.trace(os) == seq![c.act()] + c.after(os[0]).trace(os.drop_first()),
{
}

/// A run with no outcomes stays where it is and asks for nothing.
proof fn lemma_stop(c: Controller, os: Seq<Outcome>)
    requires
        os.len() == 0,
    ensures
        c.run(os) == c,
        c.trace(os) == Seq::<Act>::empty(),
{
}

/// The waits of an action followed by others.
proof fn lemma_total_wait_cons(a: Act, rest: Seq<Act>)
    ensures
        total_wait(seq![a] + rest) == (match a {
            Act::Wait(ms) => ms,
            _ => 0,
        }) + total_wait(rest),
{
    assert((seq![a] + rest).drop_first() =~= rest);
}

/// Below `Burn`, a cycle sends the mode's solid color to every pixel, holds
/// it for 100 ms, and comes back to the poll with the mode unchanged.
pub proof fn lemma_nominal_cycle(c: Controller, os: Seq<Outcome>)
    requires
        c.phase == Phase::Render,
        !launched(c.mode),
        os.len() == 2,
    ensures
        c.trace(os) == seq![Act::Transmit(uniform(mode_color(c.mode))), Act::Wait(100)],
        c.run(os) == (Controller { phase: Phase::Poll, mode: c.mode }),
        total_wait(c.trace(os)) == 100,
{
    let c1 = c.after(os[0]);
    let os1 = os.drop_first();
    let c2 = c1.after(os1[0]);
    let os2 = os1.drop_first();
    lemma_step(c, os);
    lemma_step(c1, os1);
    lemma_stop(c2, os2);
    assert(c1.trace(os1) =~= seq![Act::Wait(100)]);
    assert(c.trace(os) =~= seq![Act::Transmit(uniform(mode_color(c.mode))), Act::Wait(100)]);
    lemma_total_wait_cons(Act::Wait(100), Seq::<Act>::empty());
    lemma_total_wait_cons(Act::Transmit(uniform(mode_color(c.mode))), seq![Act::Wait(100)]);
    assert(seq![Act::Wait(100)] =~= seq![Act::Wait(100)] + Seq::<Act>::empty());
    assert(seq![Act::Transmit(uniform(mode_color(c.mode))), Act::Wait(100)] =~= seq![
        Act::Transmit(uniform(mode_color(c.mode)))] + seq![Act::Wait(100)]);
}

/// From `Burn` on, a cycle is one poll, the navigation frame for 50 ms and a
/// dark strip for 950 ms: one poll per 1000 ms.
pub proof fn lemma_strobe_cycle(c: Controller, os: Seq<Outcome>)
    requires
        c.phase == Phase::Poll,
        os.len() == 5,
        launched(observe(c.mode, os[0])),
    ensures
        c.trace(os) == seq![
            Act::Poll,
            Act::Transmit(navigation()),
            Act::Wait(50),
            Act::Transmit(uniform(off())),
            Act::Wait(950),
        ],
        c.run(os) == (Controller { phase: Phase::Poll, mode: observe(c.mode, os[0]) }),
        total_wait(c.trace(os)) == 1000,
{
    let t0 = seq![
        Act::Poll,
        Act::Transmit(navigation()),
        Act::Wait(50),
        Act::Transmit(uniform(off())),
        Act::Wait(950),
    ];
    let c1 = c.after(os[0]);
    let os1 = os.drop_first();
    let c2 = c1.after(os1[0]);
    let os2 = os1.drop_first();
    let c3 = c2.after(os2[0]);
    let os3 = os2.drop_first();
    let c4 = c3.after(os3[0]);
    let os4 = os3.drop_first();
    let c5 = c4.after(os4[0]);
    let os5 = os4.drop_first();
    lemma_step(c, os);
    lemma_step(c1, os1);
    lemma_step(c2, os2);
    lemma_step(c3, os3);
    lemma_step(c4, os4);
    lemma_stop(c5, os5);
    let t4 = seq![Act::Wait(950)];
    let t3 = seq![Act::Transmit(uniform(off()))] + t4;
    let t2 = seq![Act::Wait(50)] + t3;
    let t1 = seq![Act::Transmit(navigation())] + t2;
    assert(c5.trace(os5) =~= Seq::<Act>::empty());
    assert(c4.trace(os4) =~= t4);
    assert(c.trace(os) == seq![Act::Poll] + t1);
    assert(seq![Act::Poll] + t1 =~= t0);
    lemma_total_wait_cons(Act::Wait(950), Seq::<Act>::empty());
    assert(t4 =~= seq![Act::Wait(950)] + Seq::<Act>::empty());
    lemma_total_wait_cons(Act::Transmit(uniform(off())), t4);
    lemma_total_wait_cons(Act::Wait(50), t3);
    lemma_total_wait_cons(Act::Transmit(navigation()), t2);
    lemma_total_wait_cons(Act::Poll, t1);
}

/// The last three actions of the boot sequence.
proof fn lemma_boot_tail(c: Controller, os: Seq<Outcome>)
    requires
        c.phase == Phase::BootHoldLit,
        os.len() == 3,
    ensures
        c.trace(os) == seq![Act::Wait(200), Act::Transmit(uniform(off())), Act::Wait(200)],
        c.run(os) == (Controller { phase: Phase::Poll, mode: c.mode }),
        total_wait(c.trace(os)) == 400,
{
    let c1 = c.after(os[0]);
    let os1 = os.drop_first();
    let c2 = c1.after(os1[0]);
    let os2 = os1.drop_first();
    let c3 = c2.after(os2[0]);
    let os3 = os2.drop_first();
    lemma_step(c, os);
    lemma_step(c1, os1);
    lemma_step(c2, os2);
    lemma_stop(c3, os3);
    let t2 = seq![Act::Wait(200)];
    let t1 = seq![Act::Transmit(uniform(off()))] + t2;
    assert(c3.trace(os3) =~= Seq::<Act>::empty());
    assert(c2.trace(os2) =~= t2);
    assert(c.trace(os) =~= seq![Act::Wait(200)] + t1);
    assert(seq![Act::Wait(200)] + t1 =~= seq![
        Act::Wait(200),
        Act::Transmit(uniform(off())),
        Act::Wait(200),
    ]);
    assert(t2 =~= seq![Act::Wait(200)] + Seq::<Act>::empty());
    lemma_total_wait_cons(Act::Wait(200), Seq::<Act>::empty());
    lemma_total_wait_cons(Act::Transmit(uniform(off())), t2);
    lemma_total_wait_cons(Act::Wait(200), t1);
}

/// The boot sequence from ramp step `i` on.
proof fn lemma_boot_from(c: Controller, i: int, os: Seq<Outcome>)
    requires
        0 <= i < NUM_LEDS,
        c.phase == (Phase::RampDelay { step: i as usize }),
        os.len() == 2 * (NUM_LEDS - i) + 3,
    ensures
        c.trace(os).len() == os.len(),
        forall|j: int| 0 <= j < NUM_LEDS - i ==> #[trigger] ramp_step_at(c.trace(os), i, j),
        c.trace(os)[2 * (NUM_LEDS - i)] == Act::Wait(200),
        c.trace(os)[2 * (NUM_LEDS - i) + 1] == Act::Transmit(uniform(off())),
        c.trace(os)[2 * (NUM_LEDS - i) + 2] == Act::Wait(200),
        c.run(os) == (Controller { phase: Phase::Poll, mode: c.mode }),
        total_wait(c.trace(os)) == 20 * (NUM_LEDS - i) + 400,
    decreases NUM_LEDS - i,
{
    let c1 = c.after(os[0]);
    let os1 = os.drop_first();
    let c2 = c1.after(os1[0]);
    let os2 = os1.drop_first();
    let t2 = c2.trace(os2);
    let t1 = seq![Act::Transmit(ramp(i))] + t2;
    let t = seq![Act::Wait(20)] + t1;
    lemma_step(c, os);
    lemma_step(c1, os1);
    assert(c1.trace(os1) == t1);
    assert(c.trace(os) == t);
    lemma_trace_len(c2, os2);
    lemma_total_wait_cons(Act::Transmit(ramp(i)), t2);
    lemma_total_wait_cons(Act::Wait(20), t1);
    if i + 1 < NUM_LEDS {
        lemma_boot_from(c2, i + 1, os2);
        assert forall|j: int| 0 <= j < NUM_LEDS - i implies #[trigger] ramp_step_at(t, i, j) by {
            if j > 0 {
                assert(ramp_step_at(t2, i + 1, j - 1));
                assert(t[2 * j] == t2[2 * (j - 1)]);
                assert(t[2 * j + 1] == t2[2 * (j - 1) + 1]);
            }
        }
        assert(t[2 * (NUM_LEDS - i)] == t2[2 * (NUM_LEDS - (i + 1))]);
        assert(t[2 * (NUM_LEDS - i) + 1] == t2[2 * (NUM_LEDS - (i + 1)) + 1]);
        assert(t[2 * (NUM_LEDS - i) + 2] == t2[2 * (NUM_LEDS - (i + 1)) + 2]);
    } else {
        lemma_boot_tail(c2, os2);
        assert forall|j: int| 0 <= j < NUM_LEDS - i implies #[trigger] ramp_step_at(t, i, j) by {
            assert(j == 0);
        }
        assert(t[2] == t2[0]);
        assert(t[3] == t2[1]);
        assert(t[4] == t2[2]);
    }
}

/// The boot sequence: sixteen ramp steps, each a 20 ms wait and a frame
/// with one more pixel lit, ending with every pixel green; then 200 ms, a
/// dark strip, 200 ms more, 720 ms in all, and the first poll.
pub proof fn lemma_boot_sequence(os: Seq<Outcome>)
    requires
        os.len() == 2 * NUM_LEDS + 3,
    ensures
        Controller::initial().trace(os).len() == os.len(),
        forall|j: int|
            0 <= j < NUM_LEDS ==> #[trigger] ramp_step_at(Controller::initial().trace(os), 0, j),
        Controller::initial().trace(os)[2 * NUM_LEDS - 1] == Act::Transmit(uniform(green())),
        Controller::initial().trace(os)[2 * NUM_LEDS] == Act::Wait(200),
        Controller::initial().trace(os)[2 * NUM_LEDS + 1] == Act::Transmit(uniform(off())),
        Controller::initial().trace(os)[2 * NUM_LEDS + 2] == Act::Wait(200),
        Controller::initial().run(os) == (Controller { phase: Phase::Poll, mode: FlightMode::Idle }),
        total_wait(Controller::initial().trace(os)) == 720,
{
    lemma_boot_from(Controller::initial(), 0, os);
    assert(ramp_step_at(Controller::initial().trace(os), 0, NUM_LEDS - 1));
    assert(ramp(NUM_LEDS - 1) =~= uniform(green()));
}

/// A failed transmission leaves the rest of the run as it would have been
/// had the frame gone out: same actions, same final state.
pub proof fn lemma_transmit_failure_ignored(c: Controller, os: Seq<Outcome>, k: int)
    requires
        0 <= k < os.len(),
        c.run(os.take(k)).act() is Transmit,
        os[k] == (Outcome::Sent { ok: false }),
    ensures
        c.trace(os.update(k, Outcome::Sent { ok: true })) == c.trace(os),
        c.run(os.update(k, Outcome::Sent { ok: true })) == c.run(os),
    decreases k,
{
    let ok = Outcome::Sent { ok: true };
    let os2 = os.update(k, ok);
    if k == 0 {
        assert(os.take(0) =~= Seq::<Outcome>::empty());
        assert(os2.drop_first() =~= os.drop_first());
        assert(c.after(os2[0]) == c.after(os[0]));
    } else {
        assert(os2.drop_first() =~= os.drop_first().update(k - 1, ok));
        assert(os.take(k).drop_first() =~= os.drop_first().take(k - 1));
        assert(os.take(k)[0] == os[0]);
        lemma_transmit_failure_ignored(c.after(os[0]), os.drop_first(), k - 1);
    }
}

/// Polls that bring no new mode keep the stored mode, and with it the frame
/// rendered for it, for any number of cycles.
pub proof fn lemma_empty_polls_keep_mode(c: Controller, os: Seq<Outcome>)
    requires
        forall|i: int| 0 <= i < os.len() ==> !brings_mode(#[trigger] os[i]),
    ensures
        c.run(os).mode == c.mode,
        c.run(os).phase == Phase::Render ==> c.run(os).act() == (Controller {
            phase: Phase::Render,
            mode: c.mode,
        }).act(),
    decreases os.len(),
{
    if os.len() > 0 {
        assert(!brings_mode(os[0]));
        let rest = os.drop_first();
        assert forall|i: int| 0 <= i < rest.len() implies !brings_mode(#[trigger] rest[i]) by {
            assert(rest[i] == os[i + 1]);
        }
        lemma_empty_polls_keep_mode(c.after(os[0]), rest);
    }
}

} // verus!

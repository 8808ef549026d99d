//! The rendering state machine: boot animation, then one mode poll and one
//! rendered cycle after another. Each state names one action for the caller
//! to perform (send a frame, wait, poll the mode channel); the caller reports
//! how it went and the machine moves on.
use vstd::prelude::*;
use crate::color::{
    Frame, Rgb, NUM_LEDS, off, green, uniform, navigation, ramp, uniform_frame, navigation_frame,
    ramp_frame,
};
use crate::flight_mode::{FlightMode, launched, mode_color};

verus! {

/// Wait before each boot ramp step.
pub const RAMP_STEP_MILLIS: u64 = 20;

/// Wait after the ramp, and again after clearing the strip.
pub const BOOT_HOLD_MILLIS: u64 = 200;

/// Hold of a solid frame before the next poll.
pub const NOMINAL_HOLD_MILLIS: u64 = 100;

/// On-time of the navigation strobe.
pub const NAVIGATION_LIGHT_BLINK_DURATION_MILLIS: u64 = 50;

/// Full period of the navigation strobe.
pub const STROBE_PERIOD_MILLIS: u64 = 1000;

/// Where the machine stands.
#[derive(Clone, Copy, Debug, PartialEq, Eq, Structural)]
pub enum Phase {
    /// Wait before lighting pixel `step`.
    RampDelay { step: usize },
    /// Light pixel `step` and send the ramp frame.
    RampShow { step: usize },
    /// Hold the fully lit ramp.
    BootHoldLit,
    /// Clear the strip.
    BootClear,
    /// Hold the cleared strip before operation starts.
    BootHoldDark,
    /// Poll the mode channel once.
    Poll,
    /// Send the frame for the current mode.
    Render,
    /// Hold the solid frame of a mode before `Burn`.
    NominalHold,
    /// Hold the navigation frame.
    StrobeHoldOn,
    /// Clear the strip after the navigation frame.
    StrobeClear,
    /// Hold the dark strip for the rest of the strobe period.
    StrobeHoldOff,
}

/// What the caller is asked to do next.
#[derive(Clone, Copy, Debug)]
pub enum Action {
    /// Send this frame to the strip.
    Transmit(Frame),
    /// Wait this many milliseconds.
    Wait(u64),
    /// Try once, without waiting, to receive the latest mode.
    Poll,
}

/// An action as a mathematical value.
pub enum Act {
    Transmit(Seq<Rgb>),
    Wait(nat),
    Poll,
}

impl View for Action {
    type V = Act;

    open spec fn view(&self) -> Act {
        match *self {
            Action::Transmit(f) => Act::Transmit(f@),
            Action::Wait(ms) => Act::Wait(ms as nat),
            Action::Poll => Act::Poll,
        }
    }
}

/// How an action went.
#[derive(Clone, Copy, Debug, PartialEq, Eq, Structural)]
pub enum Outcome {
    /// A frame was sent, or the strip reported a failure.
    Sent { ok: bool },
    /// A wait elapsed.
    Elapsed,
    /// A poll returned the latest unseen mode, or nothing.
    Received(Option<FlightMode>),
}

/// The state machine: its phase and the last mode it observed.
#[derive(Clone, Copy, Debug, PartialEq, Eq, Structural)]
pub struct Controller {
    pub phase: Phase,
    pub mode: FlightMode,
}

/// The mode kept after `o`, starting from `m`: a received mode replaces it,
/// anything else leaves it.
pub open spec fn observe(m: FlightMode, o: Outcome) -> FlightMode {
    match o {
        Outcome::Received(Some(n)) => n,
        _ => m,
    }
}

/// The phase after `p`, where `m` is the mode the machine holds there.
pub open spec fn next_phase(p: Phase, m: FlightMode) -> Phase {
    match p {
        Phase::RampDelay { step } => Phase::RampShow { step },
        Phase::RampShow { step } => if step + 1 < NUM_LEDS {
            Phase::RampDelay { step: (step + 1) as usize }
        } else {
            Phase::BootHoldLit
        },
        Phase::BootHoldLit => Phase::BootClear,
        Phase::BootClear => Phase::BootHoldDark,
        Phase::BootHoldDark => Phase::Poll,
        Phase::Poll => Phase::Render,
        Phase::Render => if launched(m) {
            Phase::StrobeHoldOn
        } else {
            Phase::NominalHold
        },
        Phase::NominalHold => Phase::Poll,
        Phase::StrobeHoldOn => Phase::StrobeClear,
        Phase::StrobeClear => Phase::StrobeHoldOff,
        Phase::StrobeHoldOff => Phase::Poll,
    }
}

/// Sum of the waits among `acts`.
pub open spec fn total_wait(acts: Seq<Act>) -> nat
    decreases acts.len(),
{
    if acts.len() == 0 {
        0
    } else {
        let w = match acts[0] {
            Act::Wait(ms) => ms,
            _ => 0,
        };
        w + total_wait(acts.drop_first())
    }
}

impl Controller {
    /// Ramp steps stay on the strip.
    pub open spec fn wf(self) -> bool {
        match self.phase {
            Phase::RampDelay { step } => step < NUM_LEDS,
            Phase::RampShow { step } => step < NUM_LEDS,
            _ => true,
        }
    }

    /// The action asked for in this state.
    pub open spec fn act(self) -> Act {
        match self.phase {
            Phase::RampDelay { .. } => Act::Wait(RAMP_STEP_MILLIS as nat),
            Phase::RampShow { step } => Act::Transmit(ramp(step as int)),
            Phase::BootHoldLit => Act::Wait(BOOT_HOLD_MILLIS as nat),
            Phase::BootClear => Act::Transmit(uniform(off())),
            Phase::BootHoldDark => Act::Wait(BOOT_HOLD_MILLIS as nat),
            Phase::Poll => Act::Poll,
            Phase::Render => if launched(self.mode) {
                Act::Transmit(navigation())
            } else {
                Act::Transmit(uniform(mode_color(self.mode)))
            },
            Phase::NominalHold => Act::Wait(NOMINAL_HOLD_MILLIS as nat),
            Phase::StrobeHoldOn => Act::Wait(NAVIGATION_LIGHT_BLINK_DURATION_MILLIS as nat),
            Phase::StrobeClear => Act::Transmit(uniform(off())),
            Phase::StrobeHoldOff => Act::Wait(
                (STROBE_PERIOD_MILLIS - NAVIGATION_LIGHT_BLINK_DURATION_MILLIS) as nat,
            ),
        }
    }

    /// The state after the action of this state ended with `o`. Only a poll
    /// looks at its outcome.
    pub open spec fn after(self, o: Outcome) -> Controller {
        let m = if self.phase == Phase::Poll {
            observe(self.mode, o)
        } else {
            self.mode
        };
        Controller { phase: next_phase(self.phase, m), mode: m }
    }

    /// The state after the actions of this state and its successors ended
    /// with `os`, in turn.
    pub open spec fn run(self, os: Seq<Outcome>) -> Controller
        decreases os.len(),
    {
        if os.len() == 0 {
            self
        } else {
            self.after(os[0]).run(os.drop_first())
        }
    }

    /// The actions asked for on the way through `os`.
    pub open spec fn trace(self, os: Seq<Outcome>) -> Seq<Act>
        decreases os.len(),
    {
        if os.len() == 0 {
            Seq::empty()
        } else {
            seq![self.act()] + self.after(os[0]).trace(os.drop_first())
        }
    }

    /// The state on power-up: the boot ramp is about to start, and no mode
    /// has been received.
    pub open spec fn initial() -> Controller {
        Controller { phase: Phase::RampDelay { step: 0 }, mode: FlightMode::Idle }
    }

    /// A controller on power-up.
    pub fn new() -> (c: Controller)
        ensures
            c == Controller::initial(),
            c.wf(),
    {
        Controller { phase: Phase::RampDelay { step: 0 }, mode: FlightMode::default() }
    }

    /// The last mode received, `Idle` before any.
    pub fn mode(&self) -> (m: FlightMode)
        ensures
            m == self.mode,
    {
        self.mode
    }

    /// The action asked for in this state.
    pub fn action(&self) -> (a: Action)
        requires
            self.wf(),
        ensures
            a@ == self.act(),
    {
        match self.phase {
            Phase::RampDelay { .. } => Action::Wait(RAMP_STEP_MILLIS),
            Phase::RampShow { step } => Action::Transmit(ramp_frame(step)),
            Phase::BootHoldLit => Action::Wait(BOOT_HOLD_MILLIS),
            Phase::BootClear => Action::Transmit(uniform_frame(Rgb::off())),
            Phase::BootHoldDark => Action::Wait(BOOT_HOLD_MILLIS),
            Phase::Poll => Action::Poll,
            Phase::Render => if self.mode.is_launched() {
                Action::Transmit(navigation_frame())
            } else {
                Action::Transmit(uniform_frame(self.mode.color()))
            },
            Phase::NominalHold => Action::Wait(NOMINAL_HOLD_MILLIS),
            Phase::StrobeHoldOn => Action::Wait(NAVIGATION_LIGHT_BLINK_DURATION_MILLIS),
            Phase::StrobeClear => Action::Transmit(uniform_frame(Rgb::off())),
            Phase::StrobeHoldOff => Action::Wait(
                STROBE_PERIOD_MILLIS - NAVIGATION_LIGHT_BLINK_DURATION_MILLIS,
            ),
        }
    }

    /// Moves on once the action of this state ended with `o`. A failed
    /// transmission is treated like a successful one.
    pub fn advance(&mut self, o: Outcome)
        requires
            old(self).wf(),
        ensures
            *final(self) == old(self).after(o),
            final(self).wf(),
    {
        if let Phase::Poll = self.phase {
            if let Outcome::Received(Some(n)) = o {
                self.mode = n;
            }
        }
        self.phase = match self.phase {
            Phase::RampDelay { step } => Phase::RampShow { step },
            Phase::RampShow { step } => if step + 1 < NUM_LEDS {
                Phase::RampDelay { step: step + 1 }
            } else {
                Phase::BootHoldLit
            },
            Phase::BootHoldLit => Phase::BootClear,
            Phase::BootClear => Phase::BootHoldDark,
            Phase::BootHoldDark => Phase::Poll,
            Phase::Poll => Phase::Render,
            Phase::Render => if self.mode.is_launched() {
                Phase::StrobeHoldOn
            } else {
                Phase::NominalHold
            },
            Phase::NominalHold => Phase::Poll,
            Phase::StrobeHoldOn => Phase::StrobeClear,
            Phase::StrobeClear => Phase::StrobeHoldOff,
            Phase::StrobeHoldOff => Phase::Poll,
        };
    }
}

} // verus!

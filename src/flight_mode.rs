//! The vehicle's operating phase and the colors shown for it.
use vstd::prelude::*;
use crate::color::{Rgb, off, green, red, orange};

verus! {

/// Operating phase of the vehicle, ordered by progression.
#[derive(Clone, Copy, Debug, PartialEq, Eq, Structural)]
pub enum FlightMode {
    Idle,
    HardwareArmed,
    Armed,
    ArmedLaunchImminent,
    Burn,
    Coast,
    RecoveryDrogue,
    RecoveryMain,
    Landed,
}

/// Position of a mode in the progression; the order of the modes is the
/// order of their ranks.
pub open spec fn rank(m: FlightMode) -> nat {
    match m {
        FlightMode::Idle => 0,
        FlightMode::HardwareArmed => 1,
        FlightMode::Armed => 2,
        FlightMode::ArmedLaunchImminent => 3,
        FlightMode::Burn => 4,
        FlightMode::Coast => 5,
        FlightMode::RecoveryDrogue => 6,
        FlightMode::RecoveryMain => 7,
        FlightMode::Landed => 8,
    }
}

/// The vehicle has reached `Burn` or a later mode.
pub open spec fn launched(m: FlightMode) -> bool {
    rank(m) >= rank(FlightMode::Burn)
}

/// Solid color shown for a mode before `Burn`; any other mode is dark.
pub open spec fn mode_color(m: FlightMode) -> Rgb {
    match m {
        FlightMode::Idle => green(),
        FlightMode::HardwareArmed => orange(),
        FlightMode::Armed => red(),
        FlightMode::ArmedLaunchImminent => red(),
        _ => off(),
    }
}

impl Default for FlightMode {
    fn default() -> (m: FlightMode)
        ensures
            m == FlightMode::Idle,
    {
        FlightMode::Idle
    }
}

impl FlightMode {
    /// Position of the mode in the progression.
    pub fn rank(&self) -> (r: u8)
        ensures
            r as nat == rank(*self),
    {
        match self {
            FlightMode::Idle => 0,
            FlightMode::HardwareArmed => 1,
            FlightMode::Armed => 2,
            FlightMode::ArmedLaunchImminent => 3,
            FlightMode::Burn => 4,
            FlightMode::Coast => 5,
            FlightMode::RecoveryDrogue => 6,
            FlightMode::RecoveryMain => 7,
            FlightMode::Landed => 8,
        }
    }

    /// Whether the mode is `Burn` or later.
    pub fn is_launched(&self) -> (b: bool)
        ensures
            b == launched(*self),
    {
        self.rank() >= FlightMode::Burn.rank()
    }

    /// The solid color shown for this mode before `Burn`.
    pub fn color(&self) -> (c: Rgb)
        ensures
            c == mode_color(*self),
    {
        match self {
            FlightMode::Idle => Rgb::green(),
            FlightMode::HardwareArmed => Rgb::orange(),
            FlightMode::Armed => Rgb::red(),
            FlightMode::ArmedLaunchImminent => Rgb::red(),
            _ => Rgb::off(),
        }
    }
}

} // verus!

//! Status indication on a strip of addressable LEDs: the current flight mode
//! is rendered as pixel frames, after a one-shot boot animation.
use vstd::prelude::*;

pub mod color;
pub mod flight_mode;
pub mod mailbox;
pub mod controller;
pub mod behaviour;

verus! {

} // verus!

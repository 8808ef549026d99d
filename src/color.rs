//! Pixel colors and whole-strip frames.
use vstd::prelude::*;

verus! {

/// Number of pixels on the strip.
pub const NUM_LEDS: usize = 16;

/// One 24-bit RGB pixel color.
#[derive(Clone, Copy, Debug, PartialEq, Eq, Structural)]
pub struct Rgb {
    pub r: u8,
    pub g: u8,
    pub b: u8,
}

/// A complete snapshot of colors for every pixel of the strip.
pub type Frame = [Rgb; NUM_LEDS];

pub open spec fn off() -> Rgb {
    Rgb { r: 0x00, g: 0x00, b: 0x00 }
}

pub open spec fn green() -> Rgb {
    Rgb { r: 0x00, g: 0xff, b: 0x00 }
}

pub open spec fn red() -> Rgb {
    Rgb { r: 0xff, g: 0x00, b: 0x00 }
}

pub open spec fn orange() -> Rgb {
    Rgb { r: 0xff, g: 0x90, b: 0x00 }
}

/// Every pixel shows `c`.
pub open spec fn uniform(c: Rgb) -> Seq<Rgb> {
    Seq::new(NUM_LEDS as nat, |i: int| c)
}

/// The navigation strobe: red and green alternating, red first.
pub open spec fn navigation() -> Seq<Rgb> {
    Seq::new(NUM_LEDS as nat, |i: int| if i % 2 == 0 { red() } else { green() })
}

/// The boot ramp after lighting pixel `step`: pixels `0..=step` green, the
/// rest still dark.
pub open spec fn ramp(step: int) -> Seq<Rgb> {
    Seq::new(NUM_LEDS as nat, |i: int| if i <= step { green() } else { off() })
}

impl Rgb {
    pub fn off() -> (c: Rgb)
        ensures
            c == off(),
    {
        Rgb { r: 0x00, g: 0x00, b: 0x00 }
    }

    pub fn green() -> (c: Rgb)
        ensures
            c == green(),
    {
        Rgb { r: 0x00, g: 0xff, b: 0x00 }
    }

    pub fn red() -> (c: Rgb)
        ensures
            c == red(),
    {
        Rgb { r: 0xff, g: 0x00, b: 0x00 }
    }

    pub fn orange() -> (c: Rgb)
        ensures
            c == orange(),
    {
        Rgb { r: 0xff, g: 0x90, b: 0x00 }
    }
}

/// A frame with every pixel set to `c`.
pub fn uniform_frame(c: Rgb) -> (f: Frame)
    ensures
        f@ == uniform(c),
{
    let f: Frame = [c; NUM_LEDS];
    assert(f@ =~= uniform(c));
    f
}

/// The constant navigation-light frame.
pub fn navigation_frame() -> (f: Frame)
    ensures
        f@ == navigation(),
{
    let mut f: Frame = [Rgb::red(); NUM_LEDS];
    let mut i: usize = 1;
    while i < NUM_LEDS
        invariant
            1 <= i <= NUM_LEDS + 1,
            i % 2 == 1,
            f@.len() == NUM_LEDS,
            forall|j: int| 0 <= j < NUM_LEDS ==> #[trigger] f@[j] == (if j % 2 == 0 || j >= i {
                red()
            } else {
                green()
            }),
        decreases NUM_LEDS + 1 - i,
    {
        f[i] = Rgb::green();
        i = i + 2;
    }
    assert(f@ =~= navigation());
    f
}

/// The frame sent at boot ramp step `step`: pixels `0..=step` green, the
/// rest dark.
pub fn ramp_frame(step: usize) -> (f: Frame)
    requires
        step < NUM_LEDS,
    ensures
        f@ == ramp(step as int),
{
    let mut f: Frame = [Rgb::off(); NUM_LEDS];
    let mut i: usize = 0;
    while i <= step
        invariant
            i <= step + 1,
            step < NUM_LEDS,
            f@.len() == NUM_LEDS,
            forall|j: int| 0 <= j < NUM_LEDS ==> #[trigger] f@[j] == (if j < i {
                green()
            } else {
                off()
            }),
        decreases step + 1 - i,
    {
        f[i] = Rgb::green();
        i = i + 1;
    }
    assert(f@ =~= ramp(step as int));
    f
}

} // verus!

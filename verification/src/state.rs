//! What the clock window lets a user choose: the simulated quartz's settings and the
//! colour in which the system clock is drawn (the true clock is drawn in its inverse).
pub mod use_state;

use vstd::prelude::*;
use crate::drift::DriftRate;
use crate::duration::{Duration, nanos_per_sec, span_in_range};

verus! {

/// An sRGBA colour with premultiplied alpha, one byte per channel.
#[derive(Clone, Copy, Debug, PartialEq, Eq, Structural)]
pub struct Color {
    pub r: u8,
    pub g: u8,
    pub b: u8,
    pub a: u8,
}

/// The opaque colour with the given red, green and blue.
pub open spec fn rgb(r: u8, g: u8, b: u8) -> Color {
    Color { r, g, b, a: 255 }
}

/// The opaque colour with the red, green and blue of `c`.
pub open spec fn opaque_of(c: Color) -> Color {
    rgb(c.r, c.g, c.b)
}

/// The opaque colour whose red, green and blue are those of `c` turned over.
pub open spec fn inverse_of(c: Color) -> Color {
    rgb((255 - c.r) as u8, (255 - c.g) as u8, (255 - c.b) as u8)
}

impl Color {
    /// The opaque colour with the given red, green and blue.
    pub fn from_rgb(r: u8, g: u8, b: u8) -> (c: Color)
        ensures
            c == rgb(r, g, b),
    {
        Color { r, g, b, a: 255 }
    }
}

/// The settings of a simulated quartz clock: its drift rate and its skew from true
/// time, in minutes and seconds.
#[derive(Clone, Copy, Debug, PartialEq, Eq, Structural)]
pub struct ClockQuartzConfig {
    pub drift: DriftRate,
    pub skew_min: i64,
    pub skew_sec: i64,
}

impl ClockQuartzConfig {
    /// The skew as one span: `skew_min` minutes and `skew_sec` seconds.
    pub fn skew(&self) -> (d: Duration)
        requires
            span_in_range(self.skew_min * 60 * nanos_per_sec()),
            span_in_range(self.skew_sec * nanos_per_sec()),
            span_in_range(self.skew_min * 60 * nanos_per_sec() + self.skew_sec * nanos_per_sec()),
        ensures
            d@ == self.skew_min * 60 * nanos_per_sec() + self.skew_sec * nanos_per_sec(),
    {
        Duration::minutes(self.skew_min).add(Duration::seconds(self.skew_sec))
    }
}

impl Default for ClockQuartzConfig {
    /// A clock at real time with no skew.
    fn default() -> (config: Self)
        ensures
            config.drift.parts_per_million == 1_000_000,
            config.skew_min == 0,
            config.skew_sec == 0,
    {
        ClockQuartzConfig { drift: DriftRate::default(), skew_min: 0, skew_sec: 0 }
    }
}

/// The settings the user is editing: the next quartz settings and the clock colour.
#[derive(Clone, Copy, Debug)]
pub struct Form {
    pub quartz_snapshot: ClockQuartzConfig,
    pub chosen_clock_color: Color,
}

impl Form {
    /// The colour of the system clock: the chosen colour, opaque.
    pub fn system_clock_color(&self) -> (c: Color)
        ensures
            c == opaque_of(self.chosen_clock_color),
    {
        let color = &self.chosen_clock_color;
        Color::from_rgb(color.r, color.g, color.b)
    }

    /// The colour of the true clock: the inverse of the chosen colour, opaque.
    pub fn inverse_clock_color(&self) -> (c: Color)
        ensures
            c == inverse_of(self.chosen_clock_color),
    {
        let color = &self.chosen_clock_color;
        Color::from_rgb(255 - color.r, 255 - color.g, 255 - color.b)
    }
}

impl Default for Form {
    /// Settings at their defaults, with a lavender clock colour.
    fn default() -> (form: Self)
        ensures
            form.quartz_snapshot.drift.parts_per_million == 1_000_000,
            form.quartz_snapshot.skew_min == 0,
            form.quartz_snapshot.skew_sec == 0,
            form.chosen_clock_color == rgb(146, 126, 238),
    {
        Form { quartz_snapshot: ClockQuartzConfig::default(), chosen_clock_color: Color::from_rgb(146, 126, 238) }
    }
}

/// Turning a colour over twice gives back its opaque self; the two clock colours
/// are each other's inverse.
pub proof fn lemma_inverse_involution(c: Color)
    ensures
        inverse_of(inverse_of(c)) == opaque_of(c),
        inverse_of(opaque_of(c)) == inverse_of(c),
        opaque_of(inverse_of(c)) == inverse_of(c),
{
}

} // verus!

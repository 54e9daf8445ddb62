//! Colours of three channels.

use vstd::prelude::*;

verus! {

/// The value of a channel that is nearest to `value`.
pub open spec fn clamped(value: int) -> int {
    if value < 0 {
        0
    } else if value > 255 {
        255
    } else {
        value
    }
}

/// A colour: a red, a green and a blue channel, each from 0 to 255.
#[derive(Debug, Copy, Clone, PartialEq, Eq, Structural)]
pub struct Color {
    r: i32,
    g: i32,
    b: i32,
}

/// The channel value nearest to `value`.
fn clamp(value: i32) -> (channel: i32)
    ensures
        channel == clamped(value as int),
{
    if value < 0 {
        0
    } else if value > 255 {
        255
    } else {
        value
    }
}

impl View for Color {
    type V = (int, int, int);

    /// The red, the green and the blue channel.
    closed spec fn view(&self) -> (int, int, int) {
        (self.r as int, self.g as int, self.b as int)
    }
}

impl Color {
    /// The invariant of the type: each channel is in its range.
    #[verifier::type_invariant]
    spec fn in_range(self) -> bool {
        &&& 0 <= self.r <= 255
        &&& 0 <= self.g <= 255
        &&& 0 <= self.b <= 255
    }

    /// Whether each channel is in its range. Every colour that a program
    /// holds is.
    pub open spec fn wf(self) -> bool {
        &&& 0 <= self@.0 <= 255
        &&& 0 <= self@.1 <= 255
        &&& 0 <= self@.2 <= 255
    }

    /// The colour nearest to three values.
    pub closed spec fn nearest(r: int, g: int, b: int) -> Color {
        Color { r: clamped(r) as i32, g: clamped(g) as i32, b: clamped(b) as i32 }
    }

    /// The colour nearest to three values has the nearest value in each channel.
    pub proof fn lemma_nearest(r: int, g: int, b: int)
        ensures
            Color::nearest(r, g, b).wf(),
            Color::nearest(r, g, b)@ == (clamped(r), clamped(g), clamped(b)),
    {
    }

    /// Two colours with the same channels are the same colour.
    pub proof fn lemma_channels_decide(self, other: Color)
        requires
            self@ == other@,
        ensures
            self == other,
    {
    }

    /// The colour nearest to the three values: a value outside 0 to 255 is
    /// taken as the nearest bound.
    pub fn from(r: i32, g: i32, b: i32) -> (color: Self)
        ensures
            color.wf(),
            color == Color::nearest(r as int, g as int, b as int),
            color@ == (clamped(r as int), clamped(g as int), clamped(b as int)),
    {
        Color { r: clamp(r), g: clamp(g), b: clamp(b) }
    }

    /// The red channel.
    pub fn r(&self) -> (r: i32)
        ensures
            r == self@.0,
            0 <= r <= 255,
    {
        proof {
            use_type_invariant(self);
        }
        self.r
    }

    /// The green channel.
    pub fn g(&self) -> (g: i32)
        ensures
            g == self@.1,
            0 <= g <= 255,
    {
        proof {
            use_type_invariant(self);
        }
        self.g
    }

    /// The blue channel.
    pub fn b(&self) -> (b: i32)
        ensures
            b == self@.2,
            0 <= b <= 255,
    {
        proof {
            use_type_invariant(self);
        }
        self.b
    }

    /// Black.
    pub fn black() -> (color: Self)
        ensures
            color.wf(),
            color@ == (0int, 0int, 0int),
    {
        Color { r: 0, g: 0, b: 0 }
    }

    /// Pure red.
    pub fn red() -> (color: Self)
        ensures
            color.wf(),
            color@ == (255int, 0int, 0int),
    {
        Color { r: 255, g: 0, b: 0 }
    }

    /// Pure green.
    pub fn green() -> (color: Self)
        ensures
            color.wf(),
            color@ == (0int, 255int, 0int),
    {
        Color { r: 0, g: 255, b: 0 }
    }

    /// Pure blue.
    pub fn blue() -> (color: Self)
        ensures
            color.wf(),
            color@ == (0int, 0int, 255int),
    {
        Color { r: 0, g: 0, b: 255 }
    }

    /// White.
    pub fn white() -> (color: Self)
        ensures
            color.wf(),
            color@ == (255int, 255int, 255int),
    {
        Color { r: 255, g: 255, b: 255 }
    }
}

/// The colour nearest to three values.
impl From<(i32, i32, i32)> for Color {
    fn from(channels: (i32, i32, i32)) -> (color: Self) {
        Color::from(channels.0, channels.1, channels.2)
    }
}

impl vstd::std_specs::convert::FromSpecImpl<(i32, i32, i32)> for Color {
    open spec fn obeys_from_spec() -> bool {
        true
    }

    open spec fn from_spec(channels: (i32, i32, i32)) -> Self {
        Color::nearest(channels.0 as int, channels.1 as int, channels.2 as int)
    }
}

} // verus!

//! The command that tints a sprite.

use crate::easing::Easing;
use crate::event::{begin, field, head, put_int, Event};
use crate::text::{decimal, spaces};
use crate::utils;
use vstd::prelude::*;

verus! {

/// A tint.
#[derive(Debug)]
pub enum Color {
    /// At one time, to one colour: depth, time, colour
    Static(usize, i32, utils::Color),
    /// Over a span of time, from one colour to another: depth, easing,
    /// start, end, first and last colour
    Dynamic(usize, Easing, i32, i32, utils::Color, utils::Color),
}

/// The three channels of a colour as parameters of a line.
pub open spec fn channels(color: utils::Color) -> Seq<char> {
    field(decimal(color@.0)) + field(decimal(color@.1)) + field(decimal(color@.2))
}

/// Adds the three channels of a colour to a line.
fn put_color(line: &mut String, color: &utils::Color)
    ensures
        final(line)@ == old(line)@ + channels(*color),
{
    put_int(line, color.r() as i64);
    put_int(line, color.g() as i64);
    put_int(line, color.b() as i64);
    assert(line@ =~= old(line)@ + channels(*color));
}

impl Event for Color {
    open spec fn line(&self) -> Seq<char> {
        match self {
            Color::Static(depth, time, color) => head(*depth, "C"@, 0, *time, None) + channels(
                *color,
            ),
            Color::Dynamic(depth, easing, start, end, first, last) => head(
                *depth,
                "C"@,
                easing.ordinal(),
                *start,
                Some(*end),
            ) + channels(*first) + channels(*last),
        }
    }

    open spec fn start_time(&self) -> i32 {
        match self {
            Color::Static(_, time, _) => *time,
            Color::Dynamic(_, _, start, _, _, _) => *start,
        }
    }

    open spec fn end_time(&self) -> i32 {
        match self {
            Color::Static(_, time, _) => *time,
            Color::Dynamic(_, _, _, end, _, _) => *end,
        }
    }

    open spec fn with_depth(&self, depth: usize) -> Self {
        match *self {
            Color::Static(_, time, color) => Color::Static(depth, time, color),
            Color::Dynamic(_, easing, start, end, first, last) => Color::Dynamic(
                depth,
                easing,
                start,
                end,
                first,
                last,
            ),
        }
    }

    proof fn lemma_depth(&self, depth: usize) {
        assert(spaces(0) =~= Seq::<char>::empty());
        assert(self.with_depth(depth).line() =~= spaces(depth as nat) + self.with_depth(0).line());
    }

    fn to_line(&self) -> (line: String) {
        match self {
            Color::Static(depth, time, color) => {
                let mut line = begin(*depth, "C", Easing::Linear.id(), *time, None);
                put_color(&mut line, color);
                line
            },
            Color::Dynamic(depth, easing, start, end, first, last) => {
                let mut line = begin(*depth, "C", easing.id(), *start, Some(*end));
                put_color(&mut line, first);
                put_color(&mut line, last);
                line
            },
        }
    }

    fn set_depth(&mut self, depth: usize) {
        match self {
            Color::Static(current, _, _) => *current = depth,
            Color::Dynamic(current, _, _, _, _, _) => *current = depth,
        }
    }

    fn get_start_time(&self) -> (time: i32) {
        match self {
            Color::Static(_, time, _) => *time,
            Color::Dynamic(_, _, start, _, _, _) => *start,
        }
    }

    fn get_end_time(&self) -> (time: i32) {
        match self {
            Color::Static(_, time, _) => *time,
            Color::Dynamic(_, _, _, end, _, _) => *end,
        }
    }
}

/// A static command from its time and its colour.
impl From<(i32, utils::Color)> for Color {
    fn from(args: (i32, utils::Color)) -> (event: Self) {
        Color::Static(0, args.0, args.1)
    }
}

impl vstd::std_specs::convert::FromSpecImpl<(i32, utils::Color)> for Color {
    open spec fn obeys_from_spec() -> bool {
        true
    }

    open spec fn from_spec(args: (i32, utils::Color)) -> Self {
        Color::Static(0, args.0, args.1)
    }
}

/// A static command from its time and the three channels of its colour.
impl From<(i32, i32, i32, i32)> for Color {
    fn from(args: (i32, i32, i32, i32)) -> (event: Self) {
        Color::Static(0, args.0, utils::Color::from(args.1, args.2, args.3))
    }
}

impl vstd::std_specs::convert::FromSpecImpl<(i32, i32, i32, i32)> for Color {
    open spec fn obeys_from_spec() -> bool {
        true
    }

    open spec fn from_spec(args: (i32, i32, i32, i32)) -> Self {
        Color::Static(
            0,
            args.0,
            utils::Color::nearest(args.1 as int, args.2 as int, args.3 as int),
        )
    }
}

/// A linear command from its start, its end, and its first and last colour.
impl From<(i32, i32, utils::Color, utils::Color)> for Color {
    fn from(args: (i32, i32, utils::Color, utils::Color)) -> (event: Self) {
        Color::Dynamic(0, Easing::Linear, args.0, args.1, args.2, args.3)
    }
}

impl vstd::std_specs::convert::FromSpecImpl<(i32, i32, utils::Color, utils::Color)> for Color {
    open spec fn obeys_from_spec() -> bool {
        true
    }

    open spec fn from_spec(args: (i32, i32, utils::Color, utils::Color)) -> Self {
        Color::Dynamic(0, Easing::Linear, args.0, args.1, args.2, args.3)
    }
}

/// A linear command from its start, its end, and the three channels of its
/// first and of its last colour.
impl From<(i32, i32, i32, i32, i32, i32, i32, i32)> for Color {
    fn from(args: (i32, i32, i32, i32, i32, i32, i32, i32)) -> (event: Self) {
        Color::Dynamic(
            0,
            Easing::Linear,
            args.0,
            args.1,
            utils::Color::from(args.2, args.3, args.4),
            utils::Color::from(args.5, args.6, args.7),
        )
    }
}

impl vstd::std_specs::convert::FromSpecImpl<(i32, i32, i32, i32, i32, i32, i32, i32)> for Color {
    open spec fn obeys_from_spec() -> bool {
        true
    }

    open spec fn from_spec(args: (i32, i32, i32, i32, i32, i32, i32, i32)) -> Self {
        Color::Dynamic(
            0,
            Easing::Linear,
            args.0,
            args.1,
            utils::Color::nearest(args.2 as int, args.3 as int, args.4 as int),
            utils::Color::nearest(args.5 as int, args.6 as int, args.7 as int),
        )
    }
}

/// A command from its easing, its start, its end, and its first and last
/// colour.
impl From<(Easing, i32, i32, utils::Color, utils::Color)> for Color {
    fn from(args: (Easing, i32, i32, utils::Color, utils::Color)) -> (event: Self) {
        Color::Dynamic(0, args.0, args.1, args.2, args.3, args.4)
    }
}

impl vstd::std_specs::convert::FromSpecImpl<(Easing, i32, i32, utils::Color, utils::Color)>
    for Color
{
    open spec fn obeys_from_spec() -> bool {
        true
    }

    open spec fn from_spec(args: (Easing, i32, i32, utils::Color, utils::Color)) -> Self {
        Color::Dynamic(0, args.0, args.1, args.2, args.3, args.4)
    }
}

/// A command from its easing, its start, its end, and the three channels of
/// its first and of its last colour.
impl From<(Easing, i32, i32, i32, i32, i32, i32, i32, i32)> for Color {
    fn from(args: (Easing, i32, i32, i32, i32, i32, i32, i32, i32)) -> (event: Self) {
        Color::Dynamic(
            0,
            args.0,
            args.1,
            args.2,
            utils::Color::from(args.3, args.4, args.5),
            utils::Color::from(args.6, args.7, args.8),
        )
    }
}

impl vstd::std_specs::convert::FromSpecImpl<(Easing, i32, i32, i32, i32, i32, i32, i32, i32)>
    for Color
{
    open spec fn obeys_from_spec() -> bool {
        true
    }

    open spec fn from_spec(args: (Easing, i32, i32, i32, i32, i32, i32, i32, i32)) -> Self {
        Color::Dynamic(
            0,
            args.0,
            args.1,
            args.2,
            utils::Color::nearest(args.3 as int, args.4 as int, args.5 as int),
            utils::Color::nearest(args.6 as int, args.7 as int, args.8 as int),
        )
    }
}

} // verus!

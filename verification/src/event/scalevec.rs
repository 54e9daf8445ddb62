//! The command that changes the size of a sprite along each axis.

use crate::easing::Easing;
use crate::event::{begin, field, head, put_number, Event};
use crate::text::spaces;
use crate::utils::{Number, Vec2};
use vstd::prelude::*;
use vstd::std_specs::convert::IntoSpec;

verus! {

/// A change of size, by one factor for each axis.
#[derive(Debug)]
pub enum ScaleVec {
    /// At one time, to one scale: depth, time, scale
    Static(usize, i32, Vec2),
    /// Over a span of time, from one scale to another: depth, easing,
    /// start, end, first and last scale
    Dynamic(usize, Easing, i32, i32, Vec2, Vec2),
}

impl Event for ScaleVec {
    open spec fn line(&self) -> Seq<char> {
        match self {
            ScaleVec::Static(depth, time, value) => head(*depth, "V"@, 0, *time, None) + field(
                value.x.text(),
            ) + field(value.y.text()),
            ScaleVec::Dynamic(depth, easing, start, end, first, last) => head(
                *depth,
                "V"@,
                easing.ordinal(),
                *start,
                Some(*end),
            ) + field(first.x.text()) + field(first.y.text()) + field(last.x.text()) + field(
                last.y.text(),
            ),
        }
    }

    open spec fn start_time(&self) -> i32 {
        match self {
            ScaleVec::Static(_, time, _) => *time,
            ScaleVec::Dynamic(_, _, start, _, _, _) => *start,
        }
    }

    open spec fn end_time(&self) -> i32 {
        match self {
            ScaleVec::Static(_, time, _) => *time,
            ScaleVec::Dynamic(_, _, _, end, _, _) => *end,
        }
    }

    open spec fn with_depth(&self, depth: usize) -> Self {
        match *self {
            ScaleVec::Static(_, time, value) => ScaleVec::Static(depth, time, value),
            ScaleVec::Dynamic(_, easing, start, end, first, last) => ScaleVec::Dynamic(
                depth,
                easing,
                start,
                end,
                first,
                last,
            ),
        }
    }

    proof fn lemma_depth(&self, depth: usize) {
        assert(spaces(0) =~= Seq::<char>::empty());
        assert(self.with_depth(depth).line() =~= spaces(depth as nat) + self.with_depth(0).line());
    }

    fn to_line(&self) -> (line: String) {
        match self {
            ScaleVec::Static(depth, time, value) => {
                let mut line = begin(*depth, "V", Easing::Linear.id(), *time, None);
                put_number(&mut line, &value.x);
                put_number(&mut line, &value.y);
                line
            },
            ScaleVec::Dynamic(depth, easing, start, end, first, last) => {
                let mut line = begin(*depth, "V", easing.id(), *start, Some(*end));
                put_number(&mut line, &first.x);
                put_number(&mut line, &first.y);
                put_number(&mut line, &last.x);
                put_number(&mut line, &last.y);
                line
            },
        }
    }

    fn set_depth(&mut self, depth: usize) {
        match self {
            ScaleVec::Static(current, _, _) => *current = depth,
            ScaleVec::Dynamic(current, _, _, _, _, _) => *current = depth,
        }
    }

    fn get_start_time(&self) -> (time: i32) {
        match self {
            ScaleVec::Static(_, time, _) => *time,
            ScaleVec::Dynamic(_, _, start, _, _, _) => *start,
        }
    }

    fn get_end_time(&self) -> (time: i32) {
        match self {
            ScaleVec::Static(_, time, _) => *time,
            ScaleVec::Dynamic(_, _, _, end, _, _) => *end,
        }
    }
}

/// A static command from its time and its scale.
impl From<(i32, Vec2)> for ScaleVec {
    fn from(args: (i32, Vec2)) -> (event: Self) {
        ScaleVec::Static(0, args.0, args.1)
    }
}

impl vstd::std_specs::convert::FromSpecImpl<(i32, Vec2)> for ScaleVec {
    open spec fn obeys_from_spec() -> bool {
        true
    }

    open spec fn from_spec(args: (i32, Vec2)) -> Self {
        ScaleVec::Static(0, args.0, args.1)
    }
}

/// A static command from its time and the two parts of its scale.
impl<T: Into<Number>, U: Into<Number>> From<(i32, T, U)> for ScaleVec {
    fn from(args: (i32, T, U)) -> (event: Self) {
        ScaleVec::Static(0, args.0, Vec2::from(args.1, args.2))
    }
}

impl<T: Into<Number>, U: Into<Number>>
    vstd::std_specs::convert::FromSpecImpl<(i32, T, U)> for ScaleVec
{
    open spec fn obeys_from_spec() -> bool {
        T::obeys_into_spec() && U::obeys_into_spec()
    }

    open spec fn from_spec(args: (i32, T, U)) -> Self {
        ScaleVec::Static(0, args.0, Vec2 { x: args.1.into_spec(), y: args.2.into_spec() })
    }
}

/// A linear command from its start, its end, and its first and last scale.
impl From<(i32, i32, Vec2, Vec2)> for ScaleVec {
    fn from(args: (i32, i32, Vec2, Vec2)) -> (event: Self) {
        ScaleVec::Dynamic(0, Easing::Linear, args.0, args.1, args.2, args.3)
    }
}

impl vstd::std_specs::convert::FromSpecImpl<(i32, i32, Vec2, Vec2)> for ScaleVec {
    open spec fn obeys_from_spec() -> bool {
        true
    }

    open spec fn from_spec(args: (i32, i32, Vec2, Vec2)) -> Self {
        ScaleVec::Dynamic(0, Easing::Linear, args.0, args.1, args.2, args.3)
    }
}

/// A linear command from its start, its end, and the two parts of its first
/// and of its last scale.
impl<T: Into<Number>, U: Into<Number>, V: Into<Number>, W: Into<Number>>
    From<(i32, i32, T, U, V, W)> for ScaleVec
{
    fn from(args: (i32, i32, T, U, V, W)) -> (event: Self) {
        ScaleVec::Dynamic(
            0,
            Easing::Linear,
            args.0,
            args.1,
            Vec2::from(args.2, args.3),
            Vec2::from(args.4, args.5),
        )
    }
}

impl<T: Into<Number>, U: Into<Number>, V: Into<Number>, W: Into<Number>>
    vstd::std_specs::convert::FromSpecImpl<(i32, i32, T, U, V, W)> for ScaleVec
{
    open spec fn obeys_from_spec() -> bool {
        T::obeys_into_spec() && U::obeys_into_spec() && V::obeys_into_spec()
            && W::obeys_into_spec()
    }

    open spec fn from_spec(args: (i32, i32, T, U, V, W)) -> Self {
        ScaleVec::Dynamic(
            0,
            Easing::Linear,
            args.0,
            args.1,
            Vec2 { x: args.2.into_spec(), y: args.3.into_spec() },
            Vec2 { x: args.4.into_spec(), y: args.5.into_spec() },
        )
    }
}

/// A command from its easing, its start, its end, and its first and last
/// scale.
impl From<(Easing, i32, i32, Vec2, Vec2)> for ScaleVec {
    fn from(args: (Easing, i32, i32, Vec2, Vec2)) -> (event: Self) {
        ScaleVec::Dynamic(0, args.0, args.1, args.2, args.3, args.4)
    }
}

impl vstd::std_specs::convert::FromSpecImpl<(Easing, i32, i32, Vec2, Vec2)> for ScaleVec {
    open spec fn obeys_from_spec() -> bool {
        true
    }

    open spec fn from_spec(args: (Easing, i32, i32, Vec2, Vec2)) -> Self {
        ScaleVec::Dynamic(0, args.0, args.1, args.2, args.3, args.4)
    }
}

/// A command from its easing, its start, its end, and the two parts of its
/// first and of its last scale.
impl<T: Into<Number>, U: Into<Number>, V: Into<Number>, W: Into<Number>>
    From<(Easing, i32, i32, T, U, V, W)> for ScaleVec
{
    fn from(args: (Easing, i32, i32, T, U, V, W)) -> (event: Self) {
        ScaleVec::Dynamic(
            0,
            args.0,
            args.1,
            args.2,
            Vec2::from(args.3, args.4),
            Vec2::from(args.5, args.6),
        )
    }
}

impl<T: Into<Number>, U: Into<Number>, V: Into<Number>, W: Into<Number>>
    vstd::std_specs::convert::FromSpecImpl<(Easing, i32, i32, T, U, V, W)> for ScaleVec
{
    open spec fn obeys_from_spec() -> bool {
        T::obeys_into_spec() && U::obeys_into_spec() && V::obeys_into_spec()
            && W::obeys_into_spec()
    }

    open spec fn from_spec(args: (Easing, i32, i32, T, U, V, W)) -> Self {
        ScaleVec::Dynamic(
            0,
            args.0,
            args.1,
            args.2,
            Vec2 { x: args.3.into_spec(), y: args.4.into_spec() },
            Vec2 { x: args.5.into_spec(), y: args.6.into_spec() },
        )
    }
}

} // verus!

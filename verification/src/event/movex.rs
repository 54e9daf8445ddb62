//! The command that moves a sprite along the horizontal axis.

use crate::easing::Easing;
use crate::event::{begin, field, head, put_number, Event};
use crate::text::spaces;
use crate::utils::Number;
use vstd::prelude::*;
use vstd::std_specs::convert::IntoSpec;

verus! {

/// A move along the horizontal axis.
#[derive(Debug)]
pub enum MoveX {
    /// At one time, to one position: depth, time, position
    Static(usize, i32, Number),
    /// Over a span of time, from one position to another: depth, easing,
    /// start, end, first and last position
    Dynamic(usize, Easing, i32, i32, Number, Number),
}

impl Event for MoveX {
    open spec fn line(&self) -> Seq<char> {
        match self {
            MoveX::Static(depth, time, value) => head(*depth, "MX"@, 0, *time, None) + field(
                value.text(),
            ),
            MoveX::Dynamic(depth, easing, start, end, first, last) => head(
                *depth,
                "MX"@,
                easing.ordinal(),
                *start,
                Some(*end),
            ) + field(first.text()) + field(last.text()),
        }
    }

    open spec fn start_time(&self) -> i32 {
        match self {
            MoveX::Static(_, time, _) => *time,
            MoveX::Dynamic(_, _, start, _, _, _) => *start,
        }
    }

    open spec fn end_time(&self) -> i32 {
        match self {
            MoveX::Static(_, time, _) => *time,
            MoveX::Dynamic(_, _, _, end, _, _) => *end,
        }
    }

    open spec fn with_depth(&self, depth: usize) -> Self {
        match *self {
            MoveX::Static(_, time, value) => MoveX::Static(depth, time, value),
            MoveX::Dynamic(_, easing, start, end, first, last) => MoveX::Dynamic(
                depth,
                easing,
                start,
                end,
                first,
                last,
            ),
        }
    }

    proof fn lemma_depth(&self, depth: usize) {
        assert(spaces(0) =~= Seq::<char>::empty());
        assert(self.with_depth(depth).line() =~= spaces(depth as nat) + self.with_depth(0).line());
    }

    fn to_line(&self) -> (line: String) {
        match self {
            MoveX::Static(depth, time, value) => {
                let mut line = begin(*depth, "MX", Easing::Linear.id(), *time, None);
                put_number(&mut line, value);
                line
            },
            MoveX::Dynamic(depth, easing, start, end, first, last) => {
                let mut line = begin(*depth, "MX", easing.id(), *start, Some(*end));
                put_number(&mut line, first);
                put_number(&mut line, last);
                line
            },
        }
    }

    fn set_depth(&mut self, depth: usize) {
        match self {
            MoveX::Static(current, _, _) => *current = depth,
            MoveX::Dynamic(current, _, _, _, _, _) => *current = depth,
        }
    }

    fn get_start_time(&self) -> (time: i32) {
        match self {
            MoveX::Static(_, time, _) => *time,
            MoveX::Dynamic(_, _, start, _, _, _) => *start,
        }
    }

    fn get_end_time(&self) -> (time: i32) {
        match self {
            MoveX::Static(_, time, _) => *time,
            MoveX::Dynamic(_, _, _, end, _, _) => *end,
        }
    }
}

/// A static command from its time and its position.
impl<T: Into<Number>> From<(i32, T)> for MoveX {
    fn from(args: (i32, T)) -> (event: Self) {
        MoveX::Static(0, args.0, args.1.into())
    }
}

impl<T: Into<Number>> vstd::std_specs::convert::FromSpecImpl<(i32, T)> for MoveX {
    open spec fn obeys_from_spec() -> bool {
        T::obeys_into_spec()
    }

    open spec fn from_spec(args: (i32, T)) -> Self {
        MoveX::Static(0, args.0, args.1.into_spec())
    }
}

/// A linear command from its start, its end, and its first and last position.
impl<T: Into<Number>, U: Into<Number>> From<(i32, i32, T, U)> for MoveX {
    fn from(args: (i32, i32, T, U)) -> (event: Self) {
        MoveX::Dynamic(0, Easing::Linear, args.0, args.1, args.2.into(), args.3.into())
    }
}

impl<T: Into<Number>, U: Into<Number>>
    vstd::std_specs::convert::FromSpecImpl<(i32, i32, T, U)> for MoveX
{
    open spec fn obeys_from_spec() -> bool {
        T::obeys_into_spec() && U::obeys_into_spec()
    }

    open spec fn from_spec(args: (i32, i32, T, U)) -> Self {
        MoveX::Dynamic(0, Easing::Linear, args.0, args.1, args.2.into_spec(), args.3.into_spec())
    }
}

/// A command from its easing, its start, its end, and its first and last
/// position.
impl<T: Into<Number>, U: Into<Number>> From<(Easing, i32, i32, T, U)> for MoveX {
    fn from(args: (Easing, i32, i32, T, U)) -> (event: Self) {
        MoveX::Dynamic(0, args.0, args.1, args.2, args.3.into(), args.4.into())
    }
}

impl<T: Into<Number>, U: Into<Number>>
    vstd::std_specs::convert::FromSpecImpl<(Easing, i32, i32, T, U)> for MoveX
{
    open spec fn obeys_from_spec() -> bool {
        T::obeys_into_spec() && U::obeys_into_spec()
    }

    open spec fn from_spec(args: (Easing, i32, i32, T, U)) -> Self {
        MoveX::Dynamic(0, args.0, args.1, args.2, args.3.into_spec(), args.4.into_spec())
    }
}

} // verus!

//! The command that blends a sprite additively.

use crate::easing::Easing;
use crate::event::{begin, field, head, put_word, Event};
use crate::text::spaces;
use vstd::prelude::*;

verus! {

/// A sprite blended additively for a span of time.
#[derive(Debug)]
pub enum Additive {
    /// Over a span of time: depth, easing, start, end
    Dynamic(usize, Easing, i32, i32),
}

impl Event for Additive {
    open spec fn line(&self) -> Seq<char> {
        match self {
            Additive::Dynamic(depth, easing, start, end) => head(
                *depth,
                "P"@,
                easing.ordinal(),
                *start,
                Some(*end),
            ) + field("A"@),
        }
    }

    open spec fn start_time(&self) -> i32 {
        match self {
            Additive::Dynamic(_, _, start, _) => *start,
        }
    }

    open spec fn end_time(&self) -> i32 {
        match self {
            Additive::Dynamic(_, _, _, end) => *end,
        }
    }

    open spec fn with_depth(&self, depth: usize) -> Self {
        match *self {
            Additive::Dynamic(_, easing, start, end) => Additive::Dynamic(
                depth,
                easing,
                start,
                end,
            ),
        }
    }

    proof fn lemma_depth(&self, depth: usize) {
        assert(spaces(0) =~= Seq::<char>::empty());
        assert(self.with_depth(depth).line() =~= spaces(depth as nat) + self.with_depth(0).line());
    }

    fn to_line(&self) -> (line: String) {
        match self {
            Additive::Dynamic(depth, easing, start, end) => {
                let mut line = begin(*depth, "P", easing.id(), *start, Some(*end));
                put_word(&mut line, "A");
                line
            },
        }
    }

    fn set_depth(&mut self, depth: usize) {
        match self {
            Additive::Dynamic(current, _, _, _) => *current = depth,
        }
    }

    fn get_start_time(&self) -> (time: i32) {
        match self {
            Additive::Dynamic(_, _, start, _) => *start,
        }
    }

    fn get_end_time(&self) -> (time: i32) {
        match self {
            Additive::Dynamic(_, _, _, end) => *end,
        }
    }
}

/// A linear command from its start and its end.
impl From<(i32, i32)> for Additive {
    fn from(args: (i32, i32)) -> (event: Self) {
        Additive::Dynamic(0, Easing::Linear, args.0, args.1)
    }
}

impl vstd::std_specs::convert::FromSpecImpl<(i32, i32)> for Additive {
    open spec fn obeys_from_spec() -> bool {
        true
    }

    open spec fn from_spec(args: (i32, i32)) -> Self {
        Additive::Dynamic(0, Easing::Linear, args.0, args.1)
    }
}

/// A command from its easing, its start and its end.
impl From<(Easing, i32, i32)> for Additive {
    fn from(args: (Easing, i32, i32)) -> (event: Self) {
        Additive::Dynamic(0, args.0, args.1, args.2)
    }
}

impl vstd::std_specs::convert::FromSpecImpl<(Easing, i32, i32)> for Additive {
    open spec fn obeys_from_spec() -> bool {
        true
    }

    open spec fn from_spec(args: (Easing, i32, i32)) -> Self {
        Additive::Dynamic(0, args.0, args.1, args.2)
    }
}

} // verus!

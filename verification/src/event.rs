//! The commands of a sprite, one type for each kind, and what they share.
//!
//! A command is one line of a script:
//! `<indent> <code>,<easing>,<start>,<end>,<parameters>`. The indent is one
//! space more than the depth of the command; a static command leaves the end
//! empty and has the easing `Linear`.

pub mod additive;
pub mod color;
pub mod fade;
pub mod hflip;
pub mod move_;
pub mod movex;
pub mod movey;
pub mod rotate;
pub mod scale;
pub mod scalevec;
pub mod vflip;

pub use additive::Additive;
pub use color::Color;
pub use fade::Fade;
pub use hflip::HFlip;
pub use move_::Move;
pub use movex::MoveX;
pub use movey::MoveY;
pub use rotate::Rotate;
pub use scale::Scale;
pub use scalevec::ScaleVec;
pub use vflip::VFlip;

use crate::text::{decimal, push_decimal, push_spaces, spaces};
use crate::utils::Number;
use vstd::prelude::*;
use vstd::string::StringExecFns;

verus! {

/// What every kind of command offers.
pub trait Event: Sized {
    /// The line of the command in a script, without the end of line.
    spec fn line(&self) -> Seq<char>;

    /// The time at which the command starts.
    spec fn start_time(&self) -> i32;

    /// The time at which the command ends.
    spec fn end_time(&self) -> i32;

    /// The same command at another depth.
    spec fn with_depth(&self, depth: usize) -> Self;

    /// A command at a depth is the command at depth 0 behind as many spaces:
    /// the depth changes neither the times nor the rest of the line.
    proof fn lemma_depth(&self, depth: usize)
        ensures
            self.with_depth(depth).start_time() == self.start_time(),
            self.with_depth(depth).end_time() == self.end_time(),
            self.with_depth(depth).line() == spaces(depth as nat) + self.with_depth(0).line(),
    ;

    /// Writes the command as a line of a script.
    fn to_line(&self) -> (line: String)
        ensures
            line@ == self.line(),
    ;

    /// Moves the command to `depth`, and changes nothing else.
    fn set_depth(&mut self, depth: usize)
        ensures
            *final(self) == old(self).with_depth(depth),
    ;

    /// The time at which the command starts.
    fn get_start_time(&self) -> (time: i32)
        ensures
            time == self.start_time(),
    ;

    /// The time at which the command ends.
    fn get_end_time(&self) -> (time: i32)
        ensures
            time == self.end_time(),
    ;
}

/// A parameter of a line: a comma and the text.
pub open spec fn field(text: Seq<char>) -> Seq<char> {
    seq![','] + text
}

/// The part of a line that all kinds share: the indent, the code of the kind,
/// the number of the easing, the start and the end, which is left empty where
/// there is none.
pub open spec fn head(
    depth: usize,
    code: Seq<char>,
    easing: u8,
    start: i32,
    end: Option<i32>,
) -> Seq<char> {
    spaces(depth as nat) + seq![' '] + code + field(decimal(easing as int)) + field(
        decimal(start as int),
    ) + field(
        match end {
            Some(time) => decimal(time as int),
            None => Seq::empty(),
        },
    )
}

/// Starts a line with what all kinds share.
pub fn begin(depth: usize, code: &str, easing: u8, start: i32, end: Option<i32>) -> (line: String)
    ensures
        line@ == head(depth, code@, easing, start, end),
{
    let mut line = String::new();
    push_spaces(&mut line, depth);
    line.append(" ");
    line.append(code);
    line.append(",");
    push_decimal(&mut line, easing as i64);
    line.append(",");
    push_decimal(&mut line, start as i64);
    line.append(",");
    match end {
        Some(time) => push_decimal(&mut line, time as i64),
        None => {},
    }
    proof {
        reveal_strlit(" ");
        reveal_strlit(",");
        assert(line@ =~= head(depth, code@, easing, start, end));
    }
    line
}

/// Adds a whole number to a line.
pub fn put_int(line: &mut String, value: i64)
    ensures
        final(line)@ == old(line)@ + field(decimal(value as int)),
{
    line.append(",");
    push_decimal(line, value);
    proof {
        reveal_strlit(",");
        assert(line@ =~= old(line)@ + field(decimal(value as int)));
    }
}

/// Adds a number to a line.
pub fn put_number(line: &mut String, value: &Number)
    ensures
        final(line)@ == old(line)@ + field(value.text()),
{
    line.append(",");
    value.append_to(line);
    proof {
        reveal_strlit(",");
        assert(line@ =~= old(line)@ + field(value.text()));
    }
}

/// Adds a word to a line.
pub fn put_word(line: &mut String, word: &str)
    ensures
        final(line)@ == old(line)@ + field(word@),
{
    line.append(",");
    line.append(word);
    proof {
        reveal_strlit(",");
        assert(line@ =~= old(line)@ + field(word@));
    }
}

} // verus!

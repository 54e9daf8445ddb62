//! Numbers as a script shows them.

use crate::text::{decimal, push_decimal};
use vstd::prelude::*;
use vstd::string::StringExecFns;

verus! {

/// A number of a script: a position, an opacity, an angle or a scale.
#[derive(Debug, PartialEq)]
pub enum Number {
    /// A whole number
    Int(i32),
    /// A number with a fractional part, held as the decimal notation that
    /// stands for it in a script
    Float(String),
}

impl Number {
    /// The notation of the number in a script: a whole number in decimal
    /// notation without a point, any other as it is held.
    pub open spec fn text(&self) -> Seq<char> {
        match self {
            Number::Int(value) => decimal(*value as int),
            Number::Float(notation) => notation@,
        }
    }

    /// Appends the notation of the number to `out`.
    pub fn append_to(&self, out: &mut String)
        ensures
            final(out)@ == old(out)@ + self.text(),
    {
        match self {
            Number::Int(value) => push_decimal(out, *value as i64),
            Number::Float(notation) => out.append(notation.as_str()),
        }
    }

    /// The notation of the number.
    pub fn to_string(&self) -> (notation: String)
        ensures
            notation@ == self.text(),
    {
        let mut notation = String::new();
        self.append_to(&mut notation);
        assert(notation@ =~= self.text());
        notation
    }
}

impl Clone for Number {
    fn clone(&self) -> (copy: Self)
        ensures
            copy == *self,
    {
        match self {
            Number::Int(value) => Number::Int(*value),
            Number::Float(notation) => Number::Float(notation.clone()),
        }
    }
}

/// A whole number.
impl From<i32> for Number {
    fn from(value: i32) -> (number: Self) {
        Number::Int(value)
    }
}

impl vstd::std_specs::convert::FromSpecImpl<i32> for Number {
    open spec fn obeys_from_spec() -> bool {
        true
    }

    open spec fn from_spec(value: i32) -> Self {
        Number::Int(value)
    }
}

} // verus!

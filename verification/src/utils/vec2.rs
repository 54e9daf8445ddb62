//! Pairs of numbers.

use crate::utils::number::Number;
use vstd::prelude::*;
use vstd::std_specs::convert::IntoSpec;

verus! {

/// A pair of numbers: a position or a scale along both axes.
#[derive(Debug, PartialEq)]
pub struct Vec2 {
    pub x: Number,
    pub y: Number,
}

impl Vec2 {
    /// The pair of two zeros.
    pub fn new() -> (pair: Self)
        ensures
            pair == (Vec2 { x: Number::Int(0), y: Number::Int(0) }),
    {
        Vec2 { x: Number::Int(0), y: Number::Int(0) }
    }

    /// The pair of `x` and `y`, each turned into a number: its parts are what
    /// the two convert into.
    pub fn from<T: Into<Number>, U: Into<Number>>(x: T, y: U) -> (pair: Self)
        ensures
            call_ensures(T::into, (x,), pair.x),
            call_ensures(U::into, (y,), pair.y),
            T::obeys_into_spec() ==> pair.x == x.into_spec(),
            U::obeys_into_spec() ==> pair.y == y.into_spec(),
    {
        Vec2 { x: x.into(), y: y.into() }
    }
}

impl Clone for Vec2 {
    fn clone(&self) -> (copy: Self)
        ensures
            copy == *self,
    {
        Vec2 { x: self.x.clone(), y: self.y.clone() }
    }
}

} // verus!

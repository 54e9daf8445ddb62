//! The easing curves of the storyboard format, their protocol numbers and their equality.

use vstd::prelude::*;
use vstd::std_specs::cmp::PartialEqSpec;
use vstd::string::StringExecFns;

verus! {

/// The curve along which a dynamic command moves from its first value to its last.
///
/// Each curve has a protocol number between 0 and 34. Some curves have two or
/// three names: those names are distinct values of this type that compare equal.
#[derive(Clone, Copy, Debug)]
pub enum Easing {
    /// The value changes at a constant rate; the default of the osu! editor
    Linear,
    /// Fast at first, slowing down toward the end
    Out,
    /// Slow at first, speeding up toward the end
    In,
    /// The same curve as `In`
    QuadIn,
    /// The same curve as `Out`
    QuadOut,
    QuadInOut,
    CubicIn,
    CubicOut,
    CubicInOut,
    QuartIn,
    QuartOut,
    QuartInOut,
    QuintIn,
    QuintOut,
    QuintInOut,
    SineIn,
    SineOut,
    SineInOut,
    ExpoIn,
    ExpoOut,
    ExpoInOut,
    CircIn,
    CircOut,
    CircInOut,
    ElasticIn,
    ElasticOut,
    /// The same curve as `ElasticOut`
    ElasticHalfOut,
    /// The same curve as `ElasticOut`
    ElasticQuarterOut,
    ElasticInOut,
    BackIn,
    BackOut,
    BackInOut,
    BounceIn,
    BounceOut,
    BounceInOut,
}

/// The curves that the easings are built from. Each goes from 0 at 0 to 1 at 1.
#[derive(Clone, Copy, Debug, PartialEq, Eq, Structural)]
pub enum Curve {
    /// The line
    Linear,
    /// The square
    Quad,
    /// The third power
    Cubic,
    /// The fourth power
    Quart,
    /// The fifth power
    Quint,
    /// A quarter of a cosine wave, starting slowly
    Sine,
    /// A power of two, starting slowly
    Expo,
    /// A quarter of a circle, starting slowly
    Circ,
    /// A damped sine wave that swings about 1 and settles there
    Elastic,
    /// A polynomial that first goes below 0
    Back,
    /// Four arcs that touch 1 one after the other, each smaller than the one before
    Bounce,
}

/// How the value of an easing is found.
#[derive(Clone, Copy, Debug)]
pub enum Shape {
    /// By the curve itself
    Base(Curve),
    /// By another easing, run backwards and turned upside down: its value at
    /// `x` is 1 less the other's value at `1 - x`
    Reverse(Easing),
    /// By another easing, once at half size as it is and once reversed at
    /// half size: below one half its value at `x` is half the other's value at
    /// `2x`, from there on 1 less half the other's value at `2 - 2x`
    InOut(Easing),
}

/// Why a protocol number could not be read as an `Easing`.
#[derive(Clone, Copy, Debug, PartialEq, Eq, Structural)]
pub enum EasingParsingError {
    /// The number is above 34
    IncorrectID,
}

/// How far `time` is into the span from `start_time` to `end_time`: the time
/// that has passed since the start, and the length of the span. There is no
/// answer where `time` is outside the span.
///
/// The two numbers are the fraction at which an easing is asked for its
/// value: it goes from 0 at the start to 1 at the end.
pub fn progress(time: i32, start_time: i32, end_time: i32) -> (fraction: Option<(i64, i64)>)
    ensures
        fraction.is_some() <==> start_time <= time <= end_time,
        fraction matches Some((passed, span)) ==> {
            &&& passed == time - start_time
            &&& span == end_time - start_time
            &&& 0 <= passed <= span
        },
{
    if time < start_time || time > end_time {
        None
    } else {
        Some((time as i64 - start_time as i64, end_time as i64 - start_time as i64))
    }
}

impl EasingParsingError {
    /// What went wrong, in words.
    pub fn to_string(&self) -> (s: String)
        ensures
            s@ == "Given easing ID does not correspond to any existing easing"@,
    {
        String::from_str("Given easing ID does not correspond to any existing easing")
    }
}

impl Easing {
    /// The protocol number of this name: its position in the list of names.
    pub open spec fn ordinal(self) -> u8 {
        match self {
            Easing::Linear => 0,
            Easing::Out => 1,
            Easing::In => 2,
            Easing::QuadIn => 3,
            Easing::QuadOut => 4,
            Easing::QuadInOut => 5,
            Easing::CubicIn => 6,
            Easing::CubicOut => 7,
            Easing::CubicInOut => 8,
            Easing::QuartIn => 9,
            Easing::QuartOut => 10,
            Easing::QuartInOut => 11,
            Easing::QuintIn => 12,
            Easing::QuintOut => 13,
            Easing::QuintInOut => 14,
            Easing::SineIn => 15,
            Easing::SineOut => 16,
            Easing::SineInOut => 17,
            Easing::ExpoIn => 18,
            Easing::ExpoOut => 19,
            Easing::ExpoInOut => 20,
            Easing::CircIn => 21,
            Easing::CircOut => 22,
            Easing::CircInOut => 23,
            Easing::ElasticIn => 24,
            Easing::ElasticOut => 25,
            Easing::ElasticHalfOut => 26,
            Easing::ElasticQuarterOut => 27,
            Easing::ElasticInOut => 28,
            Easing::BackIn => 29,
            Easing::BackOut => 30,
            Easing::BackInOut => 31,
            Easing::BounceIn => 32,
            Easing::BounceOut => 33,
            Easing::BounceInOut => 34,
        }
    }

    /// The name that a protocol number is read as, if it is one.
    ///
    /// Of the names of one curve the number of each is read as the same name:
    /// 1 and 4 as `QuadOut`, 2 and 3 as `QuadIn`, 25 to 27 as `ElasticOut`.
    pub open spec fn lookup(id: u8) -> Option<Easing> {
        if id == 0 {
            Some(Easing::Linear)
        } else if id == 1 {
            Some(Easing::QuadOut)
        } else if id == 2 {
            Some(Easing::QuadIn)
        } else if id == 3 {
            Some(Easing::QuadIn)
        } else if id == 4 {
            Some(Easing::QuadOut)
        } else if id == 5 {
            Some(Easing::QuadInOut)
        } else if id == 6 {
            Some(Easing::CubicIn)
        } else if id == 7 {
            Some(Easing::CubicOut)
        } else if id == 8 {
            Some(Easing::CubicInOut)
        } else if id == 9 {
            Some(Easing::QuartIn)
        } else if id == 10 {
            Some(Easing::QuartOut)
        } else if id == 11 {
            Some(Easing::QuartInOut)
        } else if id == 12 {
            Some(Easing::QuintIn)
        } else if id == 13 {
            Some(Easing::QuintOut)
        } else if id == 14 {
            Some(Easing::QuintInOut)
        } else if id == 15 {
            Some(Easing::SineIn)
        } else if id == 16 {
            Some(Easing::SineOut)
        } else if id == 17 {
            Some(Easing::SineInOut)
        } else if id == 18 {
            Some(Easing::ExpoIn)
        } else if id == 19 {
            Some(Easing::ExpoOut)
        } else if id == 20 {
            Some(Easing::ExpoInOut)
        } else if id == 21 {
            Some(Easing::CircIn)
        } else if id == 22 {
            Some(Easing::CircOut)
        } else if id == 23 {
            Some(Easing::CircInOut)
        } else if id == 24 {
            Some(Easing::ElasticIn)
        } else if id == 25 {
            Some(Easing::ElasticOut)
        } else if id == 26 {
            Some(Easing::ElasticOut)
        } else if id == 27 {
            Some(Easing::ElasticOut)
        } else if id == 28 {
            Some(Easing::ElasticInOut)
        } else if id == 29 {
            Some(Easing::BackIn)
        } else if id == 30 {
            Some(Easing::BackOut)
        } else if id == 31 {
            Some(Easing::BackInOut)
        } else if id == 32 {
            Some(Easing::BounceIn)
        } else if id == 33 {
            Some(Easing::BounceOut)
        } else if id == 34 {
            Some(Easing::BounceInOut)
        } else {
            None
        }
    }

    /// The name that stands for all the names of this curve.
    pub open spec fn canonical(self) -> Easing {
        match self {
            Easing::Out => Easing::QuadOut,
            Easing::In => Easing::QuadIn,
            Easing::ElasticHalfOut => Easing::ElasticOut,
            Easing::ElasticQuarterOut => Easing::ElasticOut,
            other => other,
        }
    }

    /// How the value of the easing is found: by a curve, or from another
    /// easing.
    ///
    /// An easing that ends in `Out` is the reverse of the one that ends in
    /// `In`, and one that ends in `InOut` is put together from the one that
    /// ends in `In`. The elastic and the bounce curve are given for the
    /// easing that ends in `Out`; there the one that ends in `In` is the
    /// reverse.
    pub open spec fn form(self) -> Shape {
        match self {
            Easing::Linear => Shape::Base(Curve::Linear),
            Easing::In => Shape::Base(Curve::Quad),
            Easing::QuadIn => Shape::Base(Curve::Quad),
            Easing::Out => Shape::Reverse(Easing::In),
            Easing::QuadOut => Shape::Reverse(Easing::In),
            Easing::QuadInOut => Shape::InOut(Easing::In),
            Easing::CubicIn => Shape::Base(Curve::Cubic),
            Easing::CubicOut => Shape::Reverse(Easing::CubicIn),
            Easing::CubicInOut => Shape::InOut(Easing::CubicIn),
            Easing::QuartIn => Shape::Base(Curve::Quart),
            Easing::QuartOut => Shape::Reverse(Easing::QuartIn),
            Easing::QuartInOut => Shape::InOut(Easing::QuartIn),
            Easing::QuintIn => Shape::Base(Curve::Quint),
            Easing::QuintOut => Shape::Reverse(Easing::QuintIn),
            Easing::QuintInOut => Shape::InOut(Easing::QuintIn),
            Easing::SineIn => Shape::Base(Curve::Sine),
            Easing::SineOut => Shape::Reverse(Easing::SineIn),
            Easing::SineInOut => Shape::InOut(Easing::SineIn),
            Easing::ExpoIn => Shape::Base(Curve::Expo),
            Easing::ExpoOut => Shape::Reverse(Easing::ExpoIn),
            Easing::ExpoInOut => Shape::InOut(Easing::ExpoIn),
            Easing::CircIn => Shape::Base(Curve::Circ),
            Easing::CircOut => Shape::Reverse(Easing::CircIn),
            Easing::CircInOut => Shape::InOut(Easing::CircIn),
            Easing::ElasticIn => Shape::Reverse(Easing::ElasticOut),
            Easing::ElasticOut => Shape::Base(Curve::Elastic),
            Easing::ElasticHalfOut => Shape::Base(Curve::Elastic),
            Easing::ElasticQuarterOut => Shape::Base(Curve::Elastic),
            Easing::ElasticInOut => Shape::InOut(Easing::ElasticIn),
            Easing::BackIn => Shape::Base(Curve::Back),
            Easing::BackOut => Shape::Reverse(Easing::BackIn),
            Easing::BackInOut => Shape::InOut(Easing::BackIn),
            Easing::BounceIn => Shape::Reverse(Easing::BounceOut),
            Easing::BounceOut => Shape::Base(Curve::Bounce),
            Easing::BounceInOut => Shape::InOut(Easing::BounceIn),
        }
    }

    /// The number of easings that one goes through, from this one, to reach
    /// a curve.
    pub open spec fn steps(self) -> nat {
        match self.form() {
            Shape::Base(_) => 0,
            Shape::Reverse(other) | Shape::InOut(other) => match other.form() {
                Shape::Base(_) => 1,
                _ => 2,
            },
        }
    }

    /// How the value of the easing is found.
    pub fn shape(self) -> (shape: Shape)
        ensures
            shape == self.form(),
    {
        match self {
            Easing::Linear => Shape::Base(Curve::Linear),
            Easing::In | Easing::QuadIn => Shape::Base(Curve::Quad),
            Easing::Out | Easing::QuadOut => Shape::Reverse(Easing::In),
            Easing::QuadInOut => Shape::InOut(Easing::In),
            Easing::CubicIn => Shape::Base(Curve::Cubic),
            Easing::CubicOut => Shape::Reverse(Easing::CubicIn),
            Easing::CubicInOut => Shape::InOut(Easing::CubicIn),
            Easing::QuartIn => Shape::Base(Curve::Quart),
            Easing::QuartOut => Shape::Reverse(Easing::QuartIn),
            Easing::QuartInOut => Shape::InOut(Easing::QuartIn),
            Easing::QuintIn => Shape::Base(Curve::Quint),
            Easing::QuintOut => Shape::Reverse(Easing::QuintIn),
            Easing::QuintInOut => Shape::InOut(Easing::QuintIn),
            Easing::SineIn => Shape::Base(Curve::Sine),
            Easing::SineOut => Shape::Reverse(Easing::SineIn),
            Easing::SineInOut => Shape::InOut(Easing::SineIn),
            Easing::ExpoIn => Shape::Base(Curve::Expo),
            Easing::ExpoOut => Shape::Reverse(Easing::ExpoIn),
            Easing::ExpoInOut => Shape::InOut(Easing::ExpoIn),
            Easing::CircIn => Shape::Base(Curve::Circ),
            Easing::CircOut => Shape::Reverse(Easing::CircIn),
            Easing::CircInOut => Shape::InOut(Easing::CircIn),
            Easing::ElasticIn => Shape::Reverse(Easing::ElasticOut),
            Easing::ElasticOut | Easing::ElasticHalfOut | Easing::ElasticQuarterOut => Shape::Base(
                Curve::Elastic,
            ),
            Easing::ElasticInOut => Shape::InOut(Easing::ElasticIn),
            Easing::BackIn => Shape::Base(Curve::Back),
            Easing::BackOut => Shape::Reverse(Easing::BackIn),
            Easing::BackInOut => Shape::InOut(Easing::BackIn),
            Easing::BounceIn => Shape::Reverse(Easing::BounceOut),
            Easing::BounceOut => Shape::Base(Curve::Bounce),
            Easing::BounceInOut => Shape::InOut(Easing::BounceIn),
        }
    }

    /// Names that are equal are found in the same way: they draw one curve.
    pub proof fn lemma_equal_names_share_a_form(a: Easing, b: Easing)
        requires
            a.eq_spec(&b),
        ensures
            a.form() == b.form(),
    {
    }

    /// An easing that is found from another is further from a curve than that
    /// one, and none is further than two steps: following the forms ends.
    pub proof fn lemma_forms_end(a: Easing)
        ensures
            a.steps() <= 2,
            match a.form() {
                Shape::Base(_) => a.steps() == 0,
                Shape::Reverse(other) => other.steps() < a.steps(),
                Shape::InOut(other) => other.steps() < a.steps(),
            },
    {
    }

    /// Reads a protocol number. It succeeds on 0 to 34 and on nothing else.
    pub fn get_easing(id: u8) -> (result: Result<Easing, EasingParsingError>)
        ensures
            result.is_ok() <==> id <= 34,
            result == match Easing::lookup(id) {
                Some(easing) => Ok::<Easing, EasingParsingError>(easing),
                None => Err::<Easing, EasingParsingError>(EasingParsingError::IncorrectID),
            },
    {
        match id {
            0 => Ok(Easing::Linear),
            1 => Ok(Easing::QuadOut),
            2 => Ok(Easing::QuadIn),
            3 => Ok(Easing::QuadIn),
            4 => Ok(Easing::QuadOut),
            5 => Ok(Easing::QuadInOut),
            6 => Ok(Easing::CubicIn),
            7 => Ok(Easing::CubicOut),
            8 => Ok(Easing::CubicInOut),
            9 => Ok(Easing::QuartIn),
            10 => Ok(Easing::QuartOut),
            11 => Ok(Easing::QuartInOut),
            12 => Ok(Easing::QuintIn),
            13 => Ok(Easing::QuintOut),
            14 => Ok(Easing::QuintInOut),
            15 => Ok(Easing::SineIn),
            16 => Ok(Easing::SineOut),
            17 => Ok(Easing::SineInOut),
            18 => Ok(Easing::ExpoIn),
            19 => Ok(Easing::ExpoOut),
            20 => Ok(Easing::ExpoInOut),
            21 => Ok(Easing::CircIn),
            22 => Ok(Easing::CircOut),
            23 => Ok(Easing::CircInOut),
            24 => Ok(Easing::ElasticIn),
            25 => Ok(Easing::ElasticOut),
            26 => Ok(Easing::ElasticOut),
            27 => Ok(Easing::ElasticOut),
            28 => Ok(Easing::ElasticInOut),
            29 => Ok(Easing::BackIn),
            30 => Ok(Easing::BackOut),
            31 => Ok(Easing::BackInOut),
            32 => Ok(Easing::BounceIn),
            33 => Ok(Easing::BounceOut),
            34 => Ok(Easing::BounceInOut),
            _ => Err(EasingParsingError::IncorrectID),
        }
    }

    /// The protocol number of this name.
    pub fn id(self) -> (id: u8)
        ensures
            id == self.ordinal(),
            id <= 34,
    {
        match self {
            Easing::Linear => 0,
            Easing::Out => 1,
            Easing::In => 2,
            Easing::QuadIn => 3,
            Easing::QuadOut => 4,
            Easing::QuadInOut => 5,
            Easing::CubicIn => 6,
            Easing::CubicOut => 7,
            Easing::CubicInOut => 8,
            Easing::QuartIn => 9,
            Easing::QuartOut => 10,
            Easing::QuartInOut => 11,
            Easing::QuintIn => 12,
            Easing::QuintOut => 13,
            Easing::QuintInOut => 14,
            Easing::SineIn => 15,
            Easing::SineOut => 16,
            Easing::SineInOut => 17,
            Easing::ExpoIn => 18,
            Easing::ExpoOut => 19,
            Easing::ExpoInOut => 20,
            Easing::CircIn => 21,
            Easing::CircOut => 22,
            Easing::CircInOut => 23,
            Easing::ElasticIn => 24,
            Easing::ElasticOut => 25,
            Easing::ElasticHalfOut => 26,
            Easing::ElasticQuarterOut => 27,
            Easing::ElasticInOut => 28,
            Easing::BackIn => 29,
            Easing::BackOut => 30,
            Easing::BackInOut => 31,
            Easing::BounceIn => 32,
            Easing::BounceOut => 33,
            Easing::BounceInOut => 34,
        }
    }

    /// Two names are equal if and only if they stand for the same curve.
    pub proof fn lemma_eq_is_same_curve(a: Easing, b: Easing)
        ensures
            a.eq_spec(&b) <==> a.canonical() == b.canonical(),
    {
    }

    /// Equality of names is reflexive, symmetric and transitive.
    pub proof fn lemma_eq_is_equivalence(a: Easing, b: Easing, c: Easing)
        ensures
            a.eq_spec(&a),
            a.eq_spec(&b) ==> b.eq_spec(&a),
            a.eq_spec(&b) && b.eq_spec(&c) ==> a.eq_spec(&c),
    {
    }

    /// The names that are equal without being the same are those of three curves:
    /// `Out` and `QuadOut`; `In` and `QuadIn`; `ElasticOut`, `ElasticHalfOut` and
    /// `ElasticQuarterOut`. No other two names are equal.
    pub proof fn lemma_eq_classes(a: Easing, b: Easing)
        ensures
            a.eq_spec(&b) <==> {
                ||| a == b
                ||| (a == Easing::Out || a == Easing::QuadOut) && (b == Easing::Out || b
                    == Easing::QuadOut)
                ||| (a == Easing::In || a == Easing::QuadIn) && (b == Easing::In || b
                    == Easing::QuadIn)
                ||| (a == Easing::ElasticOut || a == Easing::ElasticHalfOut || a
                    == Easing::ElasticQuarterOut) && (b == Easing::ElasticOut || b
                    == Easing::ElasticHalfOut || b == Easing::ElasticQuarterOut)
            },
    {
    }

    /// Every number from 0 to 34 is read as a name, and no number above is.
    pub proof fn lemma_lookup_domain(id: u8)
        ensures
            Easing::lookup(id).is_some() <==> id <= 34,
    {
    }

    /// Different names have different numbers, and none is above 34.
    pub proof fn lemma_ordinal_injective(a: Easing, b: Easing)
        ensures
            a.ordinal() <= 34,
            a.ordinal() == b.ordinal() ==> a == b,
    {
    }

    /// The number of a name is read as the name that stands for its curve, which
    /// is equal to it.
    pub proof fn lemma_lookup_of_ordinal(a: Easing)
        ensures
            Easing::lookup(a.ordinal()) == Some(a.canonical()),
            a.canonical().eq_spec(&a),
    {
    }

    /// A number and the number of the name it is read as are read alike.
    pub proof fn lemma_lookup_is_stable(id: u8)
        requires
            id <= 34,
        ensures
            Easing::lookup(Easing::lookup(id).unwrap().ordinal()) == Easing::lookup(id),
    {
    }
}

impl PartialEq for Easing {
    /// Names of one curve are equal, though they differ in number.
    fn eq(&self, other: &Self) -> (equal: bool) {
        match (*self, *other) {
            (Easing::Out, Easing::QuadOut) => true,
            (Easing::QuadOut, Easing::Out) => true,
            (Easing::In, Easing::QuadIn) => true,
            (Easing::QuadIn, Easing::In) => true,
            (Easing::ElasticOut, Easing::ElasticHalfOut) => true,
            (Easing::ElasticHalfOut, Easing::ElasticOut) => true,
            (Easing::ElasticOut, Easing::ElasticQuarterOut) => true,
            (Easing::ElasticQuarterOut, Easing::ElasticOut) => true,
            (Easing::ElasticHalfOut, Easing::ElasticQuarterOut) => true,
            (Easing::ElasticQuarterOut, Easing::ElasticHalfOut) => true,
            (x, y) => x.id() == y.id(),
        }
    }
}

impl vstd::std_specs::cmp::PartialEqSpecImpl for Easing {
    open spec fn obeys_eq_spec() -> bool {
        true
    }

    open spec fn eq_spec(&self, other: &Self) -> bool {
        match (*self, *other) {
            (Easing::Out, Easing::QuadOut) => true,
            (Easing::QuadOut, Easing::Out) => true,
            (Easing::In, Easing::QuadIn) => true,
            (Easing::QuadIn, Easing::In) => true,
            (Easing::ElasticOut, Easing::ElasticHalfOut) => true,
            (Easing::ElasticHalfOut, Easing::ElasticOut) => true,
            (Easing::ElasticOut, Easing::ElasticQuarterOut) => true,
            (Easing::ElasticQuarterOut, Easing::ElasticOut) => true,
            (Easing::ElasticHalfOut, Easing::ElasticQuarterOut) => true,
            (Easing::ElasticQuarterOut, Easing::ElasticHalfOut) => true,
            (x, y) => x.ordinal() == y.ordinal(),
        }
    }
}

} // verus!

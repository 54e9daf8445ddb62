//! The points of a sprite that its position can refer to.

use vstd::prelude::*;
use vstd::string::StringExecFns;

verus! {

/// The point of a sprite that is put at the sprite's position.
#[derive(Clone, Copy, Debug, PartialEq, Eq, Structural)]
pub enum Origin {
    TopLeft,
    TopCentre,
    TopRight,
    CentreLeft,
    Centre,
    CentreRight,
    BottomLeft,
    BottomCentre,
    BottomRight,
}

impl Origin {
    /// The name of the origin in a script.
    pub open spec fn name(self) -> Seq<char> {
        match self {
            Origin::TopLeft => "TopLeft"@,
            Origin::TopCentre => "TopCentre"@,
            Origin::TopRight => "TopRight"@,
            Origin::CentreLeft => "CentreLeft"@,
            Origin::Centre => "Centre"@,
            Origin::CentreRight => "CentreRight"@,
            Origin::BottomLeft => "BottomLeft"@,
            Origin::BottomCentre => "BottomCentre"@,
            Origin::BottomRight => "BottomRight"@,
        }
    }

    /// The name of the origin in a script.
    pub fn as_str(&self) -> (name: &'static str)
        ensures
            name@ == self.name(),
    {
        match self {
            Origin::TopLeft => "TopLeft",
            Origin::TopCentre => "TopCentre",
            Origin::TopRight => "TopRight",
            Origin::CentreLeft => "CentreLeft",
            Origin::Centre => "Centre",
            Origin::CentreRight => "CentreRight",
            Origin::BottomLeft => "BottomLeft",
            Origin::BottomCentre => "BottomCentre",
            Origin::BottomRight => "BottomRight",
        }
    }

    /// The name of the origin in a script.
    pub fn to_string(&self) -> (name: String)
        ensures
            name@ == self.name(),
    {
        String::from_str(self.as_str())
    }
}

} // verus!

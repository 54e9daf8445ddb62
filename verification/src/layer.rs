//! The layers of a storyboard.

use vstd::prelude::*;
use vstd::string::StringExecFns;

verus! {

/// The layer on which a sprite is drawn.
#[derive(Clone, Copy, Debug, PartialEq, Eq, Structural)]
pub enum Layer {
    /// Behind everything else; the usual layer
    Background,
    /// Shown while the player is failing, never together with `Pass`
    Fail,
    /// Shown while the player is passing, never together with `Fail`
    Pass,
    /// In front of the other three
    Foreground,
    /// Above the playfield
    Overlay,
}

impl Layer {
    /// The name of the layer in a script.
    pub open spec fn name(self) -> Seq<char> {
        match self {
            Layer::Background => "Background"@,
            Layer::Fail => "Fail"@,
            Layer::Pass => "Pass"@,
            Layer::Foreground => "Foreground"@,
            Layer::Overlay => "Overlay"@,
        }
    }

    /// The name of the layer in a script.
    pub fn as_str(&self) -> (name: &'static str)
        ensures
            name@ == self.name(),
    {
        match self {
            Layer::Background => "Background",
            Layer::Fail => "Fail",
            Layer::Pass => "Pass",
            Layer::Foreground => "Foreground",
            Layer::Overlay => "Overlay",
        }
    }

    /// The name of the layer in a script.
    pub fn to_string(&self) -> (name: String)
        ensures
            name@ == self.name(),
    {
        String::from_str(self.as_str())
    }
}

} // verus!

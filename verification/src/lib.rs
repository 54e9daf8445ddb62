//! Generation of osu! storyboard scripts from a description of animated sprites.
//!
//! A storyboard is made of modules, a module of sprites on one layer, and a
//! sprite of commands: moves, fades, turns, changes of size and of colour, each
//! at one time or over a span of time along an easing curve. Each of them
//! writes itself as the text that the game reads.
//!
//! Every function states what it returns as a contract over the values of its
//! arguments; the contracts are proved by Verus.

pub mod easing;
pub mod event;
pub mod layer;
pub mod module;
pub mod origin;
pub mod storyboard;
pub mod text;
pub mod utils;
pub mod visuals;

pub use easing::{progress, Curve, Easing, EasingParsingError, Shape};
pub use event::Event;
pub use layer::Layer;
pub use module::Module;
pub use origin::Origin;
pub use storyboard::{modules_to_str, Storyboard};
pub use visuals::{events_to_str, EventCollection, LoopType, Sprite, SpriteType};

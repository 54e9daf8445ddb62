//! What a storyboard shows.

pub mod sprite;

pub use sprite::{events_to_str, EventCollection, LoopType, Sprite, SpriteType};

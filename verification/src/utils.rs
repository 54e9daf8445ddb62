//! The value types that commands and sprites are made of.

pub mod color;
pub mod interval_map;
pub mod number;
pub mod vec2;

pub use color::Color;
pub use interval_map::IntervalMap;
pub use number::Number;
pub use vec2::Vec2;

//! A tiny container, `Directional<T>`, that holds exactly one value of type
//! `T` for each of the four cardinal directions (right, left, up, down),
//! together with a `Direction` enum offering basic geometric helpers
//! (opposite, quarter-turn rotation, axis classification).

pub mod direction;
pub mod directional;

pub use direction::Direction;
pub use directional::Directional;

//! A small fishing game: a line that falls and is reeled in, and the
//! fishables that drift past it.

pub mod fishable;
pub mod spawn;
pub mod game;
pub mod frame;
pub mod laws;

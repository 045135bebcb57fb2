//! The logic of an animated scene: a sphere orbited by a ring of text glyphs that
//! turn continuously and cycle through hues. The scene is set up once its engine and
//! its font are ready, without blocking, and each one-time step runs exactly once.

pub mod clock;
pub mod color;
pub mod layout;
pub mod lifecycle;

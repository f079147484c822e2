//! A solver for a fixed partial goal-state of a 3x3x3 twisty puzzle.
//!
//! The library is organised leaf-first: `cube` holds the sticker-state
//! representation, `rotate` the face-rotation engine, `goal` the partial
//! goal predicate, `search` the depth-bounded exhaustive search, `parse`
//! the textual-net constructor, `render` the move serialisation, and
//! `laws` the algebraic laws the rotation engine obeys.

pub mod cube;
pub mod rotate;
pub mod goal;
pub mod search;
pub mod parse;
pub mod render;
pub mod laws;

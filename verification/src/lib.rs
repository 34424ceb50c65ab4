//! The core data of a visual node-graph editor: graph positions, size hints,
//! rendering descriptions of nodes and sockets, and the decision logic of the
//! editor's interactions (dragging nodes, connecting sockets, laying out
//! socket rows).

use vstd::prelude::*;

pub mod adapter;
pub mod body_layout;
pub mod collect;
pub mod connection;
pub mod interaction;
pub mod search;
pub mod size_hint;
pub mod ui;

pub use adapter::{ConnectionHint, Id};
pub use size_hint::SizeHint;

verus! {

/// A position in the graph coordinates system.
#[derive(Debug, Default, Clone, Copy, PartialEq, Eq, Hash, Structural)]
pub struct Pos {
    pub x: i32,
    pub y: i32,
}

impl Pos {
    /// Creates a [`Pos`].
    #[must_use]
    pub fn new(x: i32, y: i32) -> (pos: Self)
        ensures
            pos.x == x,
            pos.y == y,
    {
        Pos { x, y }
    }
}

} // verus!

//! Description of how a socket is rendered.

use super::{Color, TextUi};
use vstd::prelude::*;
use vstd::std_specs::convert::IntoSpec;

verus! {

/// Defines how a socket should be rendered.
#[derive(Debug, Clone, PartialEq, Eq, PartialOrd, Ord, Hash)]
pub struct SocketUI {
    /// The text next to the socket's handle.
    pub name: TextUi,
    /// The side of the node this socket should be placed.
    pub side: NodeSide,
    /// Whether or not this socket is connected to at least one other socket.
    pub is_connected: bool,
    /// The color of socket's handle.
    pub color: Color,
    /// The shape of the handle of the socket.
    pub shape: SocketShape,
}

impl SocketUI {
    /// Creates a [`SocketUI`]: an empty name, a white circle handle.
    #[must_use]
    pub fn new(side: NodeSide, is_connected: bool) -> (s: Self)
        ensures
            s.name.text@ == Seq::<char>::empty(),
            s.name.color.is_none(),
            s.side == side,
            s.is_connected == is_connected,
            s.color.components() == [255u8, 255u8, 255u8, 255u8],
            s.shape == SocketShape::Circle,
    {
        Self {
            name: TextUi::default(),
            side,
            is_connected,
            color: Color::white(),
            shape: SocketShape::default(),
        }
    }

    /// Sets the text next to the socket's handle.
    #[must_use]
    pub fn with_name<N: Into<TextUi>>(self, name: N) -> (s: Self)
        ensures
            call_ensures(<N as Into<TextUi>>::into, (name,), s.name),
            <N as IntoSpec<TextUi>>::obeys_into_spec() ==> s.name == name.into_spec(),
            s.side == self.side,
            s.is_connected == self.is_connected,
            s.color == self.color,
            s.shape == self.shape,
    {
        let mut this = self;
        this.name = name.into();
        this
    }

    /// Sets the color of the socket's handle.
    #[must_use]
    pub fn with_color<C: Into<Color>>(self, color: C) -> (s: Self)
        ensures
            call_ensures(<C as Into<Color>>::into, (color,), s.color),
            <C as IntoSpec<Color>>::obeys_into_spec() ==> s.color == color.into_spec(),
            s.name == self.name,
            s.side == self.side,
            s.is_connected == self.is_connected,
            s.shape == self.shape,
    {
        let mut this = self;
        this.color = color.into();
        this
    }

    /// Sets the shape of the socket's handle.
    #[must_use]
    pub fn with_shape(self, shape: SocketShape) -> (s: Self)
        ensures
            s.shape == shape,
            s.name == self.name,
            s.side == self.side,
            s.is_connected == self.is_connected,
            s.color == self.color,
    {
        let mut this = self;
        this.shape = shape;
        this
    }
}

/// The shape of a socket's handle.
#[derive(Debug, Clone, Copy, PartialEq, Eq, PartialOrd, Ord, Hash, Structural)]
pub enum SocketShape {
    /// Circle shape.
    Circle,
    /// Square shape.
    Square,
    /// Triangle shape.
    Triangle,
}

impl Default for SocketShape {
    /// [`SocketShape::Circle`].
    fn default() -> (s: Self)
        ensures
            s == SocketShape::Circle,
    {
        SocketShape::Circle
    }
}

/// The node side where a socket is rendered.
#[derive(Debug, Clone, Copy, PartialEq, Eq, PartialOrd, Ord, Hash, Structural)]
pub enum NodeSide {
    /// The socket is rendered on the left side of the node.
    Left,
    /// The socket is rendered on the right side of the node.
    Right,
}

} // verus!

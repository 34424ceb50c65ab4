//! Description of how a node is rendered.

use super::{Color, TextUi};
use vstd::prelude::*;
use vstd::std_specs::convert::{FromSpecImpl, IntoSpec};

verus! {

/// Defines how the node header should be rendered.
#[derive(Debug, Clone, PartialEq, Eq)]
pub enum NodeHeader {
    /// No header.
    Empty,
    /// A simple header with just a title.
    Title(TitleHeader),
}

impl Default for NodeHeader {
    /// No header.
    fn default() -> (h: Self)
        ensures
            h is Empty,
    {
        NodeHeader::Empty
    }
}

/// A simple header for a node with just a title.
#[derive(Debug, Clone, PartialEq, Eq)]
pub struct TitleHeader {
    /// The text of the title.
    pub title: TextUi,
    /// The background color of the header.
    pub background: Color,
}

impl Default for TitleHeader {
    /// An empty title on a transparent background.
    fn default() -> (h: Self)
        ensures
            h.title.text@ == Seq::<char>::empty(),
            h.title.color.is_none(),
            h.background.components() == [0u8, 0u8, 0u8, 0u8],
    {
        TitleHeader { title: TextUi::default(), background: Color::default() }
    }
}

impl From<TitleHeader> for NodeHeader {
    fn from(value: TitleHeader) -> (h: Self)
        ensures
            h == NodeHeader::Title(value),
    {
        NodeHeader::Title(value)
    }
}

impl FromSpecImpl<TitleHeader> for NodeHeader {
    open spec fn obeys_from_spec() -> bool {
        true
    }

    open spec fn from_spec(v: TitleHeader) -> NodeHeader {
        NodeHeader::Title(v)
    }
}

impl TitleHeader {
    /// Creates a [`TitleHeader`].
    pub fn new<T: Into<TextUi>, C: Into<Color>>(title: T, background: C) -> (h: Self)
        ensures
            call_ensures(<T as Into<TextUi>>::into, (title,), h.title),
            call_ensures(<C as Into<Color>>::into, (background,), h.background),
            <T as IntoSpec<TextUi>>::obeys_into_spec() ==> h.title == title.into_spec(),
            <C as IntoSpec<Color>>::obeys_into_spec() ==> h.background == background.into_spec(),
    {
        let title = title.into();
        let background = background.into();
        Self { title, background }
    }
}

/// The layout for the body part of a node.
#[derive(Debug, Clone, Copy, PartialEq, Eq, PartialOrd, Ord, Hash, Structural)]
pub enum NodeLayout {
    /// Render the sockets into a single column.
    Single,
    /// Render the sockets into two column based of their [`NodeSide`](super::NodeSide).
    Double,
}

impl Default for NodeLayout {
    /// [`NodeLayout::Double`].
    fn default() -> (l: Self)
        ensures
            l == NodeLayout::Double,
    {
        NodeLayout::Double
    }
}

} // verus!

//! Descriptions of how the elements of the editor are rendered.

mod color;
mod node;
mod socket;
mod text;

pub use color::{
    lemma_components_determine_color, lemma_components_round_trip, lemma_rgba_round_trip, Color,
};
pub use node::{NodeHeader, NodeLayout, TitleHeader};
pub use socket::{NodeSide, SocketShape, SocketUI};
pub use text::TextUi;

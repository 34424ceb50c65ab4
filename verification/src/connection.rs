//! How a connection being drawn by the user is rendered.

use crate::adapter::ConnectionHint;
use vstd::prelude::*;

verus! {

/// The line style of a connection between a socket and the pointer.
#[derive(Debug, Clone, Copy, PartialEq, Eq, Structural)]
pub enum LineStyle {
    /// The graph accepts the connection: the hint width with the accept color.
    Accept,
    /// The graph rejects the connection: the hint width with the reject color.
    Reject,
    /// No hint: the default width and color.
    Plain,
}

/// The style of the line from the dragged socket to the pointer, given the
/// graph's hint about connecting to the socket under the pointer.
pub fn pointer_line_style(hint: Option<ConnectionHint>) -> (style: LineStyle)
    ensures
        style == match hint {
            Some(ConnectionHint::Accept) => LineStyle::Accept,
            Some(ConnectionHint::Reject) => LineStyle::Reject,
            None => LineStyle::Plain,
        },
{
    match hint {
        Some(ConnectionHint::Accept) => LineStyle::Accept,
        Some(ConnectionHint::Reject) => LineStyle::Reject,
        None => LineStyle::Plain,
    }
}

} // verus!

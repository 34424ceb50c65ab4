//! The rows that the sockets of a node's body occupy.
//!
//! With a single column, each socket has a row of its own, in order. With
//! two columns, the sockets of the left side stack in the left column and
//! those of the right side in the right column, each in order.

use crate::ui::{NodeLayout, NodeSide};
use vstd::prelude::*;

verus! {

/// The number of sockets among the first `n` of `sides` that are on `side`.
pub open spec fn count_side(sides: Seq<NodeSide>, side: NodeSide, n: int) -> nat
    decreases n,
{
    if n <= 0 {
        0
    } else {
        count_side(sides, side, n - 1) + if sides[n - 1] == side {
            1nat
        } else {
            0nat
        }
    }
}

/// The row of the `i`-th socket.
pub open spec fn socket_row(layout: NodeLayout, sides: Seq<NodeSide>, i: int) -> int {
    match layout {
        NodeLayout::Single => i,
        NodeLayout::Double => count_side(sides, sides[i], i) as int,
    }
}

/// The number of rows the body needs.
pub open spec fn rows_needed(layout: NodeLayout, sides: Seq<NodeSide>) -> int {
    match layout {
        NodeLayout::Single => sides.len() as int,
        NodeLayout::Double => {
            let left = count_side(sides, NodeSide::Left, sides.len() as int);
            let right = count_side(sides, NodeSide::Right, sides.len() as int);
            if left >= right {
                left as int
            } else {
                right as int
            }
        },
    }
}

/// The sockets of one side never outnumber the sockets counted.
pub proof fn lemma_count_side_bounded(sides: Seq<NodeSide>, side: NodeSide, n: int)
    requires
        0 <= n <= sides.len(),
    ensures
        count_side(sides, side, n) <= n,
    decreases n,
{
    if n > 0 {
        lemma_count_side_bounded(sides, side, n - 1);
    }
}

/// Counting more sockets never counts fewer on a side.
pub proof fn lemma_count_side_monotonic(sides: Seq<NodeSide>, side: NodeSide, m: int, n: int)
    requires
        0 <= m <= n <= sides.len(),
    ensures
        count_side(sides, side, m) <= count_side(sides, side, n),
    decreases n - m,
{
    if m < n {
        lemma_count_side_monotonic(sides, side, m, n - 1);
    }
}

/// Every socket is on one of the two sides.
pub proof fn lemma_count_sides_total(sides: Seq<NodeSide>, n: int)
    requires
        0 <= n <= sides.len(),
    ensures
        count_side(sides, NodeSide::Left, n) + count_side(sides, NodeSide::Right, n) == n,
    decreases n,
{
    if n > 0 {
        lemma_count_sides_total(sides, n - 1);
    }
}

/// The row of each socket, in the order of `sides`.
pub fn socket_rows(layout: NodeLayout, sides: &[NodeSide]) -> (rows: Vec<usize>)
    ensures
        rows@.len() == sides@.len(),
        forall|i: int| 0 <= i < sides@.len() ==> rows@[i] == socket_row(layout, sides@, i),
{
    let mut rows: Vec<usize> = Vec::new();
    let mut left: usize = 0;
    let mut right: usize = 0;
    let mut i: usize = 0;
    while i < sides.len()
        invariant
            i <= sides@.len(),
            rows@.len() == i,
            left == count_side(sides@, NodeSide::Left, i as int),
            right == count_side(sides@, NodeSide::Right, i as int),
            forall|k: int| 0 <= k < i ==> rows@[k] == socket_row(layout, sides@, k),
        decreases sides@.len() - i,
    {
        proof {
            lemma_count_side_bounded(sides@, NodeSide::Left, i as int);
            lemma_count_side_bounded(sides@, NodeSide::Right, i as int);
        }
        let row = match layout {
            NodeLayout::Single => i,
            NodeLayout::Double => match sides[i] {
                NodeSide::Left => left,
                NodeSide::Right => right,
            },
        };
        match sides[i] {
            NodeSide::Left => {
                left = left + 1;
            },
            NodeSide::Right => {
                right = right + 1;
            },
        }
        rows.push(row);
        i = i + 1;
    }
    rows
}

/// The number of rows the body needs: the number of sockets with a single
/// column, the number of sockets of the busier side with two columns.
pub fn row_count(layout: NodeLayout, sides: &[NodeSide]) -> (n: usize)
    ensures
        n == rows_needed(layout, sides@),
{
    match layout {
        NodeLayout::Single => sides.len(),
        NodeLayout::Double => {
            let mut left: usize = 0;
            let mut right: usize = 0;
            let mut i: usize = 0;
            while i < sides.len()
                invariant
                    i <= sides@.len(),
                    left == count_side(sides@, NodeSide::Left, i as int),
                    right == count_side(sides@, NodeSide::Right, i as int),
                decreases sides@.len() - i,
            {
                proof {
                    lemma_count_side_bounded(sides@, NodeSide::Left, i as int);
                    lemma_count_side_bounded(sides@, NodeSide::Right, i as int);
                }
                match sides[i] {
                    NodeSide::Left => {
                        left = left + 1;
                    },
                    NodeSide::Right => {
                        right = right + 1;
                    },
                }
                i = i + 1;
            }
            if left >= right {
                left
            } else {
                right
            }
        },
    }
}

/// Every socket's row is within the body: the body has at least one more
/// row than the row of each socket.
pub proof fn lemma_rows_within_body(layout: NodeLayout, sides: Seq<NodeSide>, i: int)
    requires
        0 <= i < sides.len(),
    ensures
        0 <= socket_row(layout, sides, i) < rows_needed(layout, sides),
{
    match layout {
        NodeLayout::Single => {},
        NodeLayout::Double => {
            lemma_count_side_monotonic(sides, sides[i], i + 1, sides.len() as int);
        },
    }
}

/// Two sockets of the same column never share a row: the later socket is on
/// a later row.
pub proof fn lemma_rows_ordered(layout: NodeLayout, sides: Seq<NodeSide>, i: int, j: int)
    requires
        0 <= i < j < sides.len(),
        layout == NodeLayout::Single || sides[i] == sides[j],
    ensures
        socket_row(layout, sides, i) < socket_row(layout, sides, j),
{
    match layout {
        NodeLayout::Single => {},
        NodeLayout::Double => {
            lemma_count_side_monotonic(sides, sides[i], i + 1, j);
        },
    }
}

/// The body never needs more rows than it has sockets.
pub proof fn lemma_rows_at_most_sockets(layout: NodeLayout, sides: Seq<NodeSide>)
    ensures
        rows_needed(layout, sides) <= sides.len(),
{
    lemma_count_side_bounded(sides, NodeSide::Left, sides.len() as int);
    lemma_count_side_bounded(sides, NodeSide::Right, sides.len() as int);
}

/// Two columns need at least half as many rows as there are sockets.
pub proof fn lemma_double_rows_at_least_half(sides: Seq<NodeSide>)
    ensures
        2 * rows_needed(NodeLayout::Double, sides) >= sides.len(),
{
    lemma_count_sides_total(sides, sides.len() as int);
}

/// Sockets that are not on `side` leave the count of `side` unchanged.
proof fn lemma_count_side_skips(sides: Seq<NodeSide>, side: NodeSide, m: int, n: int)
    requires
        0 <= m <= n <= sides.len(),
        forall|k: int| m <= k < n ==> sides[k] != side,
    ensures
        count_side(sides, side, n) == count_side(sides, side, m),
    decreases n - m,
{
    if m < n {
        lemma_count_side_skips(sides, side, m, n - 1);
    }
}

/// A side with sockets has a last one: a socket on that side with all the
/// others of the side before it.
proof fn lemma_count_side_last(sides: Seq<NodeSide>, side: NodeSide, n: int) -> (i: int)
    requires
        0 <= n <= sides.len(),
        count_side(sides, side, n) > 0,
    ensures
        0 <= i < n,
        sides[i] == side,
        count_side(sides, side, i) + 1 == count_side(sides, side, n),
    decreases n,
{
    if sides[n - 1] == side {
        n - 1
    } else {
        lemma_count_side_last(sides, side, n - 1)
    }
}

/// In one column, each socket has its own row, in order: the first socket
/// is on the top row and each next one on the row below.
pub proof fn lemma_single_column_rows(sides: Seq<NodeSide>, i: int)
    requires
        0 <= i < sides.len(),
    ensures
        socket_row(NodeLayout::Single, sides, 0) == 0,
        i + 1 < sides.len() ==> socket_row(NodeLayout::Single, sides, i + 1) == socket_row(
            NodeLayout::Single,
            sides,
            i,
        ) + 1,
{
}

/// In two columns, both columns start at the top: the first socket of
/// either side is on row `0`, however many sockets the other side has.
pub proof fn lemma_double_column_first_row(sides: Seq<NodeSide>, i: int)
    requires
        0 <= i < sides.len(),
        forall|k: int| 0 <= k < i ==> sides[k] != sides[i],
    ensures
        socket_row(NodeLayout::Double, sides, i) == 0,
{
    lemma_count_side_skips(sides, sides[i], 0, i);
}

/// In two columns, the next socket of a side goes on the row just below the
/// previous socket of the same side, whatever the other side holds.
pub proof fn lemma_double_column_next_row(sides: Seq<NodeSide>, i: int, j: int)
    requires
        0 <= i < j < sides.len(),
        sides[i] == sides[j],
        forall|k: int| i < k < j ==> sides[k] != sides[j],
    ensures
        socket_row(NodeLayout::Double, sides, j) == socket_row(NodeLayout::Double, sides, i) + 1,
{
    lemma_count_side_skips(sides, sides[j], i + 1, j);
}

/// The body needs no more rows than its sockets fill: without sockets it
/// needs none, and otherwise some socket sits on its last row.
pub proof fn lemma_rows_needed_tight(layout: NodeLayout, sides: Seq<NodeSide>)
    ensures
        sides.len() == 0 ==> rows_needed(layout, sides) == 0,
        sides.len() > 0 ==> exists|i: int|
            0 <= i < sides.len() && #[trigger] socket_row(layout, sides, i) + 1 == rows_needed(
                layout,
                sides,
            ),
{
    if sides.len() > 0 {
        match layout {
            NodeLayout::Single => {
                assert(socket_row(layout, sides, sides.len() - 1) + 1 == rows_needed(layout, sides));
            },
            NodeLayout::Double => {
                let n = sides.len() as int;
                lemma_count_sides_total(sides, n);
                let left = count_side(sides, NodeSide::Left, n);
                let right = count_side(sides, NodeSide::Right, n);
                let side = if left >= right {
                    NodeSide::Left
                } else {
                    NodeSide::Right
                };
                let i = lemma_count_side_last(sides, side, n);
                assert(socket_row(layout, sides, i) + 1 == rows_needed(layout, sides));
            },
        }
    }
}

} // verus!

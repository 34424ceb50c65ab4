//! The decisions the editor takes from the user's interactions with the
//! rendered sockets and nodes: starting, following and ending the drag of
//! a socket to connect it to another one, and dragging nodes around.

use crate::search::{is_first_match, is_search_result, no_match};
use vstd::prelude::*;
use vstd::std_specs::cmp::PartialEqSpec;

verus! {

/// What the editor reads of the interaction response of a rendered socket.
#[derive(Debug, Clone, Copy, PartialEq, Eq)]
pub struct SocketResponse<S> {
    /// The socket's identifier.
    pub id: S,
    /// The user started dragging the socket during this frame.
    pub drag_started: bool,
    /// The user stopped dragging the socket during this frame.
    pub drag_stopped: bool,
    /// The pointer is within the socket's area.
    pub contains_pointer: bool,
}

/// A property of a socket's response that the editor looks for.
#[derive(Debug, Clone, Copy, PartialEq, Eq, Structural)]
pub enum SocketFlag {
    /// [`SocketResponse::drag_started`].
    DragStarted,
    /// [`SocketResponse::contains_pointer`].
    ContainsPointer,
}

/// Whether the socket's response has the property `flag`.
pub open spec fn has_flag<S>(s: SocketResponse<S>, flag: SocketFlag) -> bool {
    match flag {
        SocketFlag::DragStarted => s.drag_started,
        SocketFlag::ContainsPointer => s.contains_pointer,
    }
}

/// The predicate "has the property `flag`".
pub open spec fn flag_pred<S>(flag: SocketFlag) -> spec_fn(SocketResponse<S>) -> bool {
    |s: SocketResponse<S>| has_flag(s, flag)
}

/// The predicate "is the socket identified by `id`".
pub open spec fn id_pred<S: PartialEq>(id: S) -> spec_fn(SocketResponse<S>) -> bool {
    |s: SocketResponse<S>| s.id.eq_spec(&id)
}

/// The outcome of the socket interactions of a frame.
#[derive(Debug, Clone, PartialEq, Eq)]
pub enum SocketInteraction<S> {
    /// Nothing to report.
    Idle,
    /// The user dropped the dragged socket (the first) on another one (the
    /// second): they want to connect them.
    Connect(S, S),
    /// The user is dragging a socket.
    InProgress {
        /// The index of the dragged socket among the rendered ones.
        source: usize,
        /// The index of the first rendered socket under the pointer, if any.
        target: Option<usize>,
    },
}

/// The index of the first socket whose response has the property `flag`.
pub fn find_flag<S>(sockets: &[SocketResponse<S>], flag: SocketFlag) -> (r: Option<usize>)
    ensures
        is_search_result(sockets@, r, flag_pred(flag)),
{
    let mut i: usize = 0;
    while i < sockets.len()
        invariant
            i <= sockets@.len(),
            forall|j: int| 0 <= j < i ==> !has_flag(#[trigger] sockets@[j], flag),
        decreases sockets@.len() - i,
    {
        let s = &sockets[i];
        let found = match flag {
            SocketFlag::DragStarted => s.drag_started,
                SocketFlag::ContainsPointer => s.contains_pointer,
        };
        if found {
            return Some(i);
        }
        i = i + 1;
    }
    None
}

/// The index of the first socket identified by `id`.
pub fn find_id<S: PartialEq>(sockets: &[SocketResponse<S>], id: &S) -> (r: Option<usize>)
    ensures
        r matches Some(i) ==> i < sockets@.len(),
        S::obeys_eq_spec() ==> is_search_result(sockets@, r, id_pred(*id)),
{
    let mut i: usize = 0;
    while i < sockets.len()
        invariant
            i <= sockets@.len(),
            S::obeys_eq_spec() ==> forall|j: int|
                0 <= j < i ==> !(#[trigger] sockets@[j]).id.eq_spec(id),
        decreases sockets@.len() - i,
    {
        if sockets[i].id == *id {
            return Some(i);
        }
        i = i + 1;
    }
    None
}

/// The frame's decision over the socket interactions, given the socket being
/// dragged before (`old`) and after (`new`) the frame and the outcome `res`.
///
/// - While a socket is dragged and still rendered:
///   - if the drag stopped, the drag ends; when the pointer is over a socket,
///     the user asks to connect the dragged socket to the first socket that
///     contains the pointer (the drop target);
///   - otherwise the drag goes on: the connection in progress runs from the
///     dragged socket to the first socket under the pointer, if any (the
///     socket to ask a connection hint for). It is reported whether or not
///     the pointer position is known; drawing it up to the pointer is left
///     to the front end, which skips it without a position.
/// - A dragged socket that is no longer rendered ends the drag.
/// - With no socket dragged, the first socket whose drag started becomes the
///   dragged one.
pub open spec fn socket_step<S: PartialEq + Clone>(
    old: Option<S>,
    sockets: Seq<SocketResponse<S>>,
    new: Option<S>,
    res: SocketInteraction<S>,
) -> bool {
    match old {
        Some(id) => {
            if no_match(sockets, id_pred(id)) {
                new is None && res is Idle
            } else {
                exists|i: int|
                    #![trigger sockets[i]]
                    is_first_match(sockets, i, id_pred(id)) && {
                        let dragged = sockets[i];
                        if dragged.drag_stopped {
                            &&& new is None
                            &&& if no_match(sockets, flag_pred(SocketFlag::ContainsPointer)) {
                                res is Idle
                            } else {
                                exists|j: int|
                                    #![trigger sockets[j]]
                                    is_first_match(sockets, j, flag_pred(SocketFlag::ContainsPointer)) && (
                                    res matches SocketInteraction::Connect(a, b) && cloned(id, a)
                                        && cloned(sockets[j].id, b))
                            }
                        } else {
                            &&& new == old
                            &&& exists|t: Option<usize>|
                                is_search_result(
                                    sockets,
                                    t,
                                    flag_pred(SocketFlag::ContainsPointer),
                                ) && res == (SocketInteraction::<S>::InProgress {
                                    source: i as usize,
                                    target: t,
                                })
                        }
                    }
            }
        },
        None => {
            &&& res is Idle
            &&& if no_match(sockets, flag_pred(SocketFlag::DragStarted)) {
                new is None
            } else {
                exists|k: int|
                    #![trigger sockets[k]]
                    is_first_match(sockets, k, flag_pred(SocketFlag::DragStarted)) && (
                    new matches Some(n) && cloned(sockets[k].id, n))
            }
        },
    }
}

/// `i` is the position of the dragged socket `id` among the rendered ones:
/// the first rendered socket with that identifier.
pub open spec fn is_dragged_at<S: PartialEq>(
    sockets: Seq<SocketResponse<S>>,
    id: S,
    i: int,
) -> bool {
    &&& 0 <= i < sockets.len()
    &&& sockets[i].id.eq_spec(&id)
    &&& forall|k: int| 0 <= k < i ==> !(#[trigger] sockets[k]).id.eq_spec(&id)
}

/// `j` is the position of the first rendered socket, among all of them,
/// whose area contains the pointer.
pub open spec fn is_under_pointer<S>(sockets: Seq<SocketResponse<S>>, j: int) -> bool {
    &&& 0 <= j < sockets.len()
    &&& sockets[j].contains_pointer
    &&& forall|k: int| 0 <= k < j ==> !(#[trigger] sockets[k]).contains_pointer
}

/// Dropping a socket: when the dragged socket is rendered and its drag
/// stopped, the drag ends, and the outcome connects the dragged socket to
/// the first rendered socket (before or after the dragged one) whose area
/// contains the pointer. Nothing is connected only when no rendered socket
/// contains the pointer.
pub proof fn lemma_drop_connects_to_socket_under_pointer<S: PartialEq + Clone>(
    id: S,
    sockets: Seq<SocketResponse<S>>,
    new: Option<S>,
    res: SocketInteraction<S>,
    i: int,
)
    requires
        socket_step(Some(id), sockets, new, res),
        is_dragged_at(sockets, id, i),
        sockets[i].drag_stopped,
    ensures
        new is None,
        forall|j: int|
            is_under_pointer(sockets, j) ==> (res matches SocketInteraction::Connect(a, b)
                && cloned(id, a) && cloned(sockets[j].id, b)),
        (forall|j: int| 0 <= j < sockets.len() ==> !(#[trigger] sockets[j]).contains_pointer)
            ==> res is Idle,
{
    assert(!no_match(sockets, id_pred(id))) by {
        assert((id_pred(id))(sockets[i]));
    }
    let i2 = choose|i2: int|
        #![trigger sockets[i2]]
        is_first_match(sockets, i2, id_pred(id)) && {
            let dragged = sockets[i2];
            if dragged.drag_stopped {
                &&& new is None
                &&& if no_match(sockets, flag_pred(SocketFlag::ContainsPointer)) {
                    res is Idle
                } else {
                    exists|j: int|
                        #![trigger sockets[j]]
                        is_first_match(sockets, j, flag_pred(SocketFlag::ContainsPointer)) && (
                        res matches SocketInteraction::Connect(a, b) && cloned(id, a) && cloned(
                            sockets[j].id,
                            b,
                        ))
                }
            } else {
                &&& new == Some(id)
                &&& exists|t: Option<usize>|
                    is_search_result(sockets, t, flag_pred(SocketFlag::ContainsPointer)) && res
                        == (SocketInteraction::<S>::InProgress { source: i2 as usize, target: t })
            }
        };
    if i2 < i {
        assert(!sockets[i2].id.eq_spec(&id));
    } else if i < i2 {
        assert(!(id_pred(id))(sockets[i]));
    }
    assert(i2 == i);
    assert forall|j: int| is_under_pointer(sockets, j) implies (res matches SocketInteraction::Connect(
        a,
        b,
    ) && cloned(id, a) && cloned(sockets[j].id, b)) by {
        assert((flag_pred::<S>(SocketFlag::ContainsPointer))(sockets[j]));
        let j2 = choose|j2: int|
            #![trigger sockets[j2]]
            is_first_match(sockets, j2, flag_pred(SocketFlag::ContainsPointer)) && (
            res matches SocketInteraction::Connect(a, b) && cloned(id, a) && cloned(
                sockets[j2].id,
                b,
            ));
        if j2 < j {
            assert(!sockets[j2].contains_pointer);
        } else if j < j2 {
            assert(!(flag_pred::<S>(SocketFlag::ContainsPointer))(sockets[j]));
        }
    }
}

/// Dragging a socket on: when the dragged socket is rendered and its drag
/// did not stop, the drag goes on with the same socket, and the connection
/// in progress runs from the dragged socket's position to the first rendered
/// socket whose area contains the pointer, or to no socket when none does.
pub proof fn lemma_drag_in_progress<S: PartialEq + Clone>(
    id: S,
    sockets: Seq<SocketResponse<S>>,
    new: Option<S>,
    res: SocketInteraction<S>,
    i: int,
)
    requires
        socket_step(Some(id), sockets, new, res),
        sockets.len() <= usize::MAX,
        is_dragged_at(sockets, id, i),
        !sockets[i].drag_stopped,
    ensures
        new == Some(id),
        res matches SocketInteraction::InProgress { source, target } && source == i && match
            target {
            Some(j) => is_under_pointer(sockets, j as int),
            None => forall|j: int|
                0 <= j < sockets.len() ==> !(#[trigger] sockets[j]).contains_pointer,
        },
{
    assert(!no_match(sockets, id_pred(id))) by {
        assert((id_pred(id))(sockets[i]));
    }
    let i2 = choose|i2: int|
        #![trigger sockets[i2]]
        is_first_match(sockets, i2, id_pred(id)) && {
            let dragged = sockets[i2];
            if dragged.drag_stopped {
                &&& new is None
                &&& if no_match(sockets, flag_pred(SocketFlag::ContainsPointer)) {
                    res is Idle
                } else {
                    exists|j: int|
                        #![trigger sockets[j]]
                        is_first_match(sockets, j, flag_pred(SocketFlag::ContainsPointer)) && (
                        res matches SocketInteraction::Connect(a, b) && cloned(id, a) && cloned(
                            sockets[j].id,
                            b,
                        ))
                }
            } else {
                &&& new == Some(id)
                &&& exists|t: Option<usize>|
                    is_search_result(sockets, t, flag_pred(SocketFlag::ContainsPointer)) && res
                        == (SocketInteraction::<S>::InProgress { source: i2 as usize, target: t })
            }
        };
    if i2 < i {
        assert(!sockets[i2].id.eq_spec(&id));
    } else if i < i2 {
        assert(!(id_pred(id))(sockets[i]));
    }
    assert(i2 == i);
    let t = choose|t: Option<usize>|
        is_search_result(sockets, t, flag_pred(SocketFlag::ContainsPointer)) && res
            == (SocketInteraction::<S>::InProgress { source: i2 as usize, target: t });
    match t {
        Some(j) => {
            assert forall|k: int| 0 <= k < j implies !(#[trigger] sockets[k]).contains_pointer by {
                assert(!(flag_pred::<S>(SocketFlag::ContainsPointer))(sockets[k]));
            }
        },
        None => {
            assert forall|j: int| 0 <= j < sockets.len() implies !(
            #[trigger] sockets[j]).contains_pointer by {
                assert(!(flag_pred::<S>(SocketFlag::ContainsPointer))(sockets[j]));
            }
        },
    }
}

/// A dragged socket that is no longer rendered ends the drag, with nothing
/// to report.
pub proof fn lemma_dragged_socket_gone<S: PartialEq + Clone>(
    id: S,
    sockets: Seq<SocketResponse<S>>,
    new: Option<S>,
    res: SocketInteraction<S>,
)
    requires
        socket_step(Some(id), sockets, new, res),
        forall|k: int| 0 <= k < sockets.len() ==> !(#[trigger] sockets[k]).id.eq_spec(&id),
    ensures
        new is None,
        res is Idle,
{
    assert forall|k: int| 0 <= k < sockets.len() implies !(id_pred(id))(
    #[trigger] sockets[k]) by {
        assert(!sockets[k].id.eq_spec(&id));
    }
    assert(no_match(sockets, id_pred(id)));
}

/// Starting a drag: with no socket dragged, nothing is reported, and the
/// first rendered socket whose drag started becomes the dragged one; when
/// no drag started, no socket is dragged.
pub proof fn lemma_drag_start<S: PartialEq + Clone>(
    sockets: Seq<SocketResponse<S>>,
    new: Option<S>,
    res: SocketInteraction<S>,
)
    requires
        socket_step(None, sockets, new, res),
    ensures
        res is Idle,
        forall|k: int|
            0 <= k < sockets.len() && (#[trigger] sockets[k]).drag_started && (forall|l: int|
                0 <= l < k ==> !(#[trigger] sockets[l]).drag_started) ==> (new matches Some(n)
                && cloned(sockets[k].id, n)),
        (forall|k: int| 0 <= k < sockets.len() ==> !(#[trigger] sockets[k]).drag_started)
            ==> new is None,
{
    assert forall|k: int|
        0 <= k < sockets.len() && (#[trigger] sockets[k]).drag_started && (forall|l: int|
            0 <= l < k ==> !(#[trigger] sockets[l]).drag_started) implies (new matches Some(n)
        && cloned(sockets[k].id, n)) by {
        assert((flag_pred::<S>(SocketFlag::DragStarted))(sockets[k]));
        let k2 = choose|k2: int|
            #![trigger sockets[k2]]
            is_first_match(sockets, k2, flag_pred(SocketFlag::DragStarted)) && (new matches Some(
                n,
            ) && cloned(sockets[k2].id, n));
        if k2 < k {
            assert(!sockets[k2].drag_started);
        } else if k < k2 {
            assert(!(flag_pred::<S>(SocketFlag::DragStarted))(sockets[k]));
        }
    }
    if forall|k: int| 0 <= k < sockets.len() ==> !(#[trigger] sockets[k]).drag_started {
        assert forall|k: int| 0 <= k < sockets.len() implies !(flag_pred::<S>(
            SocketFlag::DragStarted,
        ))(#[trigger] sockets[k]) by {
            assert(!sockets[k].drag_started);
        }
    }
}

/// Handles the responses of the rendered sockets, e.g. when the user
/// drag-n-drops a socket to create a connection.
///
/// `dragged_socket_id` is the socket being dragged, kept from one frame to
/// the next; it is updated as [`socket_step`] states. When the drag stops,
/// the drop target is the socket under the pointer: the first rendered
/// socket whose area contains the pointer.
pub fn handle_socket_responses<S: PartialEq + Clone>(
    dragged_socket_id: &mut Option<S>,
    rendered_sockets: &[SocketResponse<S>],
) -> (res: SocketInteraction<S>)
    ensures
        S::obeys_eq_spec() ==> socket_step(
            *old(dragged_socket_id),
            rendered_sockets@,
            *final(dragged_socket_id),
            res,
        ),
{
    let mut interaction = SocketInteraction::Idle;
    let ghost old_dragged = *dragged_socket_id;

    match dragged_socket_id {
        Some(socket_id) => {
            // There is a socket being dragged.
            let found = find_id(rendered_sockets, socket_id);
            match found {
                Some(i) => {
                    let socket = &rendered_sockets[i];
                    if socket.drag_stopped {
                        // The drag has stopped.
                        let drop_target = find_flag(rendered_sockets, SocketFlag::ContainsPointer);
                        match drop_target {
                            Some(j) => {
                                // Another socket contains the pointer, the user
                                // wants to connect the sockets.
                                interaction = SocketInteraction::Connect(
                                    socket_id.clone(),
                                    rendered_sockets[j].id.clone(),
                                );
                            },
                            None => {},
                        }
                        // In all cases, reset the state.
                        *dragged_socket_id = None;
                    } else {
                        // The dragging is still happening.
                        let target = find_flag(rendered_sockets, SocketFlag::ContainsPointer);
                        interaction = SocketInteraction::InProgress { source: i, target };
                    }
                },
                None => {
                    // The currently dragged socket has been removed.
                    *dragged_socket_id = None;
                },
            }
        },
        None => {
            match find_flag(rendered_sockets, SocketFlag::DragStarted) {
                Some(k) => {
                    // A socket is being dragged.
                    *dragged_socket_id = Some(rendered_sockets[k].id.clone());
                },
                None => {},
            }
        },
    }
    interaction
}

/// Handles the responses of the rendered sockets when creating connections
/// may be disabled: with `can_connect_socket`, as
/// [`handle_socket_responses`]; without it, the socket being dragged, if
/// any, is released and nothing is reported.
pub fn handle_socket_responses_if<S: PartialEq + Clone>(
    can_connect_socket: bool,
    dragged_socket_id: &mut Option<S>,
    rendered_sockets: &[SocketResponse<S>],
) -> (res: SocketInteraction<S>)
    ensures
        can_connect_socket ==> (S::obeys_eq_spec() ==> socket_step(
            *old(dragged_socket_id),
            rendered_sockets@,
            *final(dragged_socket_id),
            res,
        )),
        !can_connect_socket ==> *final(dragged_socket_id) is None && res is Idle,
{
    if can_connect_socket {
        handle_socket_responses(dragged_socket_id, rendered_sockets)
    } else {
        // Stop the currently dragged socket if creating connection is disabled.
        *dragged_socket_id = None;
        SocketInteraction::Idle
    }
}

impl<S> SocketInteraction<S> {
    /// Splits the outcome into the connection the user asks for and the
    /// connection in progress (the dragged socket's index and the index of
    /// the socket under the pointer).
    pub fn into_parts(self) -> (parts: (Option<(S, S)>, Option<(usize, Option<usize>)>))
        ensures
            match self {
                SocketInteraction::Idle => parts == (
                    None::<(S, S)>,
                    None::<(usize, Option<usize>)>,
                ),
                SocketInteraction::Connect(a, b) => parts == (
                    Some((a, b)),
                    None::<(usize, Option<usize>)>,
                ),
                SocketInteraction::InProgress { source, target } => parts == (
                    None::<(S, S)>,
                    Some((source, target)),
                ),
            },
    {
        match self {
            SocketInteraction::Idle => (None, None),
            SocketInteraction::Connect(a, b) => (Some((a, b)), None),
            SocketInteraction::InProgress { source, target } => (None, Some((source, target))),
        }
    }
}

/// `r` is what [`find_connection`] gives for the endpoints `a` and `b`.
pub open spec fn is_connection_result<S: PartialEq>(
    sockets: Seq<SocketResponse<S>>,
    a: S,
    b: S,
    r: Option<(usize, usize)>,
) -> bool {
    match r {
        Some((i, j)) => is_first_match(sockets, i as int, id_pred(a)) && is_first_match(
            sockets,
            j as int,
            id_pred(b),
        ),
        None => no_match(sockets, id_pred(a)) || no_match(sockets, id_pred(b)),
    }
}

/// Looking a connection up does not depend on the order of its endpoints:
/// the endpoints found for `(b, a)` are those found for `(a, b)`, swapped.
pub proof fn lemma_connection_symmetric<S: PartialEq>(
    sockets: Seq<SocketResponse<S>>,
    a: S,
    b: S,
    r1: Option<(usize, usize)>,
    r2: Option<(usize, usize)>,
)
    requires
        is_connection_result(sockets, a, b, r1),
        is_connection_result(sockets, b, a, r2),
    ensures
        r2 == match r1 {
            Some((i, j)) => Some((j, i)),
            None => None::<(usize, usize)>,
        },
{
    match (r1, r2) {
        (Some((i, j)), Some((k, l))) => {
            crate::search::lemma_search_result_unique(sockets, Some(i), Some(l), id_pred(a));
            crate::search::lemma_search_result_unique(sockets, Some(j), Some(k), id_pred(b));
        },
        (Some((i, j)), None) => {
            if no_match(sockets, id_pred(b)) {
                assert(!(id_pred(b))(sockets[j as int]));
            } else {
                assert(!(id_pred(a))(sockets[i as int]));
            }
        },
        (None, Some((k, l))) => {
            if no_match(sockets, id_pred(a)) {
                assert(!(id_pred(a))(sockets[l as int]));
            } else {
                assert(!(id_pred(b))(sockets[k as int]));
            }
        },
        (None, None) => {},
    }
}

/// The indices of the rendered sockets identified by `a` and `b` (the first
/// rendered socket of each identifier), when both are rendered.
pub fn find_connection<S: PartialEq>(sockets: &[SocketResponse<S>], a: &S, b: &S) -> (r: Option<
    (usize, usize),
>)
    ensures
        r matches Some((i, j)) ==> i < sockets@.len() && j < sockets@.len(),
        S::obeys_eq_spec() ==> is_connection_result(sockets@, *a, *b, r),
{
    match find_id(sockets, a) {
        Some(i) => match find_id(sockets, b) {
            Some(j) => Some((i, j)),
            None => None,
        },
        None => None,
    }
}

/// What the editor reads of the interaction response of a rendered node.
#[derive(Debug, Clone, Copy, PartialEq, Eq, Structural)]
pub struct NodeResponseFlags {
    /// The user started dragging the node during this frame.
    pub drag_started: bool,
    /// The user stopped dragging the node during this frame.
    pub drag_stopped: bool,
    /// The node is being dragged.
    pub dragged: bool,
    /// The node was clicked.
    pub clicked: bool,
    /// The node was activated from the keyboard.
    pub fake_primary_click: bool,
}

/// What happened to the dragged node during a frame.
#[derive(Debug, Clone, Copy, PartialEq, Eq, Structural)]
pub enum NodeDragAction {
    /// The node was dropped: its new position is where it was dropped.
    Dropped,
    /// The node started being dragged.
    Started,
    /// The dragged node moved by the frame's drag delta.
    Moved,
    /// Nothing changed.
    Unchanged,
}

/// The outcome of a node's interactions during a frame.
#[derive(Debug, Clone, Copy, PartialEq, Eq, Structural)]
pub struct NodeDragOutcome {
    /// What happened to the drag.
    pub action: NodeDragAction,
    /// Whether the node must be brought to the front.
    pub raise: bool,
}

/// The offset of the node `id` given the dragged node `dragged`.
pub open spec fn drag_offset<N: PartialEq, D>(dragged: Option<(N, D)>, id: N) -> Option<D> {
    match dragged {
        Some((n, d)) => if n.eq_spec(&id) {
            Some(d)
        } else {
            None
        },
        None => None,
    }
}

/// The frame's decision for the node `id`, given the node being dragged
/// (with its accumulated delta) before (`old`) and after (`new`) the frame.
///
/// A stopped drag drops the node; a started drag makes `id` the dragged
/// node with the frame's delta; while dragging, the dragged node's delta
/// accumulates the frame's delta (`accumulate`); the node is raised when clicked or
/// dragged.
pub open spec fn node_drag_step<N: PartialEq + Clone, D, F: Fn(D, D) -> D>(
    old: Option<(N, D)>,
    id: N,
    flags: NodeResponseFlags,
    drag_delta: D,
    accumulate: F,
    new: Option<(N, D)>,
    out: NodeDragOutcome,
) -> bool {
    &&& out.raise == (flags.clicked || flags.fake_primary_click || flags.dragged)
    &&& if flags.drag_stopped {
        new is None && out.action == NodeDragAction::Dropped
    } else if flags.drag_started {
        &&& out.action == NodeDragAction::Started
        &&& new matches Some((n, d)) && cloned(id, n) && d == drag_delta
    } else if flags.dragged {
        match old {
            Some((n, d)) => {
                &&& out.action == NodeDragAction::Moved
                &&& new matches Some((n2, d2)) && n2 == n && call_ensures(
                    accumulate,
                    (d, drag_delta),
                    d2,
                )
            },
            None => new is None && out.action == NodeDragAction::Unchanged,
        }
    } else {
        new == old && out.action == NodeDragAction::Unchanged
    }
}

/// Handles the interactions of the node `id` with the user: dragging it
/// around and bringing it to the front.
///
/// `dragged_node` is the node being dragged with its accumulated drag
/// delta, kept from one frame to the next; `accumulate` adds two deltas.
pub fn handle_node_response<N: PartialEq + Clone, D: Copy, F: Fn(D, D) -> D>(
    dragged_node: &mut Option<(N, D)>,
    id: &N,
    flags: NodeResponseFlags,
    drag_delta: D,
    accumulate: F,
) -> (out: NodeDragOutcome)
    requires
        forall|a: D, b: D| call_requires(accumulate, (a, b)),
    ensures
        node_drag_step(
            *old(dragged_node),
            *id,
            flags,
            drag_delta,
            accumulate,
            *final(dragged_node),
            out,
        ),
{
    let action = if flags.drag_stopped {
        *dragged_node = None;
        NodeDragAction::Dropped
    } else if flags.drag_started {
        *dragged_node = Some((id.clone(), drag_delta));
        NodeDragAction::Started
    } else if flags.dragged {
        match dragged_node.take() {
            Some((n, d)) => {
                *dragged_node = Some((n, accumulate(d, drag_delta)));
                NodeDragAction::Moved
            },
            None => NodeDragAction::Unchanged,
        }
    } else {
        NodeDragAction::Unchanged
    };

    let raise = flags.clicked || flags.fake_primary_click || flags.dragged;

    NodeDragOutcome { action, raise }
}

/// The offset at which the node `id` is drawn away from its position: the
/// accumulated drag delta when it is the node being dragged.
pub fn node_drag_offset<N: PartialEq, D: Copy>(dragged_node: &Option<(N, D)>, id: &N) -> (r:
    Option<D>)
    ensures
        N::obeys_eq_spec() ==> r == drag_offset(*dragged_node, *id),
        r matches Some(d) ==> (*dragged_node) matches Some((n, d0)) && d == d0,
{
    match dragged_node {
        Some((n, d)) => if *n == *id {
            Some(*d)
        } else {
            None
        },
        None => None,
    }
}

} // verus!

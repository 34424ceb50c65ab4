use nodui::connection::{pointer_line_style, LineStyle};
use nodui::interaction::{
    find_connection, find_flag, find_id, handle_node_response, handle_socket_responses,
    handle_socket_responses_if,
    node_drag_offset,
    NodeDragAction, NodeResponseFlags, SocketFlag, SocketInteraction, SocketResponse,
};
use nodui::ConnectionHint;

fn idle(id: u32) -> SocketResponse<u32> {
    SocketResponse {
        id,
        drag_started: false,
        drag_stopped: false,
        contains_pointer: false,
    }
}

#[test]
fn nothing_happens_without_interaction() {
    let sockets = [idle(1), idle(2)];
    let mut dragged = None;
    assert_eq!(handle_socket_responses(&mut dragged, &sockets), SocketInteraction::Idle);
    assert_eq!(dragged, None);
}

#[test]
fn drag_start_records_first_started_socket() {
    let sockets = [
        idle(1),
        SocketResponse { drag_started: true, ..idle(2) },
        SocketResponse { drag_started: true, ..idle(3) },
    ];
    let mut dragged = None;
    assert_eq!(handle_socket_responses(&mut dragged, &sockets), SocketInteraction::Idle);
    assert_eq!(dragged, Some(2));
}

#[test]
fn drag_in_progress_reports_source_and_target() {
    let sockets = [
        idle(1),
        idle(2),
        SocketResponse { contains_pointer: true, ..idle(3) },
    ];
    let mut dragged = Some(1);
    assert_eq!(
        handle_socket_responses(&mut dragged, &sockets),
        SocketInteraction::InProgress { source: 0, target: Some(2) }
    );
    assert_eq!(dragged, Some(1));
}

#[test]
fn drag_in_progress_without_socket_under_pointer() {
    let sockets = [idle(1), idle(2)];
    let mut dragged = Some(2);
    assert_eq!(
        handle_socket_responses(&mut dragged, &sockets),
        SocketInteraction::InProgress { source: 1, target: None }
    );
    assert_eq!(dragged, Some(2));
}

#[test]
fn drop_on_socket_connects() {
    let sockets = [
        SocketResponse { drag_stopped: true, ..idle(1) },
        SocketResponse { contains_pointer: true, ..idle(2) },
        SocketResponse { contains_pointer: true, ..idle(3) },
    ];
    let mut dragged = Some(1);
    assert_eq!(
        handle_socket_responses(&mut dragged, &sockets),
        SocketInteraction::Connect(1, 2)
    );
    assert_eq!(dragged, None);
}

#[test]
fn drop_target_is_the_socket_under_the_pointer() {
    // While a socket is dragged, no other socket is reported as hovered:
    // the drop target is found by the pointer being within its area.
    let sockets = [
        SocketResponse { drag_stopped: true, ..idle(1) },
        idle(2),
        SocketResponse { contains_pointer: true, ..idle(3) },
    ];
    let mut dragged = Some(1);
    assert_eq!(
        handle_socket_responses(&mut dragged, &sockets),
        SocketInteraction::Connect(1, 3)
    );
    assert_eq!(dragged, None);
}

#[test]
fn drop_elsewhere_cancels() {
    let sockets = [SocketResponse { drag_stopped: true, ..idle(1) }, idle(2)];
    let mut dragged = Some(1);
    assert_eq!(handle_socket_responses(&mut dragged, &sockets), SocketInteraction::Idle);
    assert_eq!(dragged, None);
}

#[test]
fn removed_dragged_socket_cancels() {
    let sockets = [SocketResponse { drag_started: true, ..idle(1) }];
    let mut dragged = Some(9);
    assert_eq!(handle_socket_responses(&mut dragged, &sockets), SocketInteraction::Idle);
    assert_eq!(dragged, None);
}

#[test]
fn drag_then_drop_over_frames_connects() {
    let mut dragged = None;
    let frame1 = [SocketResponse { drag_started: true, ..idle(7) }, idle(8)];
    handle_socket_responses(&mut dragged, &frame1);
    let frame2 = [
        idle(7),
        SocketResponse { contains_pointer: true, ..idle(8) },
    ];
    assert_eq!(
        handle_socket_responses(&mut dragged, &frame2),
        SocketInteraction::InProgress { source: 0, target: Some(1) }
    );
    let frame3 = [
        SocketResponse { drag_stopped: true, ..idle(7) },
        SocketResponse { contains_pointer: true, ..idle(8) },
    ];
    assert_eq!(
        handle_socket_responses(&mut dragged, &frame3),
        SocketInteraction::Connect(7, 8)
    );
    assert_eq!(dragged, None);
}

#[test]
fn into_parts_splits_interaction() {
    assert_eq!(SocketInteraction::<u8>::Idle.into_parts(), (None, None));
    assert_eq!(SocketInteraction::Connect(1u8, 2u8).into_parts(), (Some((1, 2)), None));
    assert_eq!(
        SocketInteraction::<u8>::InProgress { source: 3, target: None }.into_parts(),
        (None, Some((3, None)))
    );
}

#[test]
fn finders() {
    let sockets = [idle(4), SocketResponse { contains_pointer: true, ..idle(5) }, idle(5)];
    assert_eq!(find_id(&sockets, &5), Some(1));
    assert_eq!(find_id(&sockets, &6), None);
    assert_eq!(find_flag(&sockets, SocketFlag::ContainsPointer), Some(1));
    assert_eq!(find_flag(&sockets, SocketFlag::DragStarted), None);
}

#[test]
fn connection_lookup() {
    let sockets = [idle(4), idle(5), idle(6)];
    assert_eq!(find_connection(&sockets, &6, &4), Some((2, 0)));
    assert_eq!(find_connection(&sockets, &4, &6), Some((0, 2)));
    assert_eq!(find_connection(&sockets, &4, &7), None);
    assert_eq!(find_connection(&sockets, &7, &4), None);
}

fn flags() -> NodeResponseFlags {
    NodeResponseFlags {
        drag_started: false,
        drag_stopped: false,
        dragged: false,
        clicked: false,
        fake_primary_click: false,
    }
}

#[test]
fn node_drag_lifecycle() {
    let add = |a: i32, b: i32| a + b;
    let mut dragged: Option<(u32, i32)> = None;

    let out = handle_node_response(
        &mut dragged,
        &1,
        NodeResponseFlags { drag_started: true, dragged: true, ..flags() },
        2,
        add,
    );
    assert_eq!(out.action, NodeDragAction::Started);
    assert!(out.raise);
    assert_eq!(dragged, Some((1, 2)));

    assert_eq!(node_drag_offset(&dragged, &1), Some(2));
    assert_eq!(node_drag_offset(&dragged, &2), None);
    let out = handle_node_response(
        &mut dragged,
        &1,
        NodeResponseFlags { dragged: true, ..flags() },
        3,
        add,
    );
    assert_eq!(out.action, NodeDragAction::Moved);
    assert_eq!(dragged, Some((1, 5)));
    assert_eq!(node_drag_offset(&dragged, &1), Some(5));

    let out = handle_node_response(&mut dragged, &2, flags(), 3, add);
    assert_eq!(out.action, NodeDragAction::Unchanged);
    assert!(!out.raise);
    assert_eq!(dragged, Some((1, 5)));
    assert_eq!(node_drag_offset(&dragged, &1), Some(5));

    let out = handle_node_response(
        &mut dragged,
        &1,
        NodeResponseFlags { drag_stopped: true, ..flags() },
        1,
        add,
    );
    assert_eq!(out.action, NodeDragAction::Dropped);
    assert_eq!(dragged, None);
    assert_eq!(node_drag_offset(&dragged, &1), None);
}

#[test]
fn node_dragged_without_state_is_unchanged() {
    let mut dragged: Option<(u32, i32)> = None;
    let out = handle_node_response(
        &mut dragged,
        &1,
        NodeResponseFlags { dragged: true, ..flags() },
        4,
        |a: i32, b: i32| a + b,
    );
    assert_eq!(out.action, NodeDragAction::Unchanged);
    assert_eq!(dragged, None);
    assert!(out.raise);
}

#[test]
fn node_click_raises() {
    let mut dragged: Option<(u32, i32)> = None;
    let out = handle_node_response(
        &mut dragged,
        &1,
        NodeResponseFlags { clicked: true, ..flags() },
        0,
        |a: i32, b: i32| a + b,
    );
    assert!(out.raise);
    let out = handle_node_response(
        &mut dragged,
        &1,
        NodeResponseFlags { fake_primary_click: true, ..flags() },
        0,
        |a: i32, b: i32| a + b,
    );
    assert!(out.raise);
}

#[test]
fn line_style_follows_hint() {
    assert_eq!(pointer_line_style(Some(ConnectionHint::Accept)), LineStyle::Accept);
    assert_eq!(pointer_line_style(Some(ConnectionHint::Reject)), LineStyle::Reject);
    assert_eq!(pointer_line_style(None), LineStyle::Plain);
}

#[test]
fn connecting_disabled_releases_the_dragged_socket() {
    let sockets = [
        SocketResponse { drag_stopped: true, ..idle(1) },
        SocketResponse { contains_pointer: true, ..idle(2) },
    ];
    let mut dragged = Some(1);
    assert_eq!(
        handle_socket_responses_if(false, &mut dragged, &sockets),
        SocketInteraction::Idle
    );
    assert_eq!(dragged, None);

    let mut dragged = Some(1);
    assert_eq!(
        handle_socket_responses_if(true, &mut dragged, &sockets),
        SocketInteraction::Connect(1, 2)
    );
    assert_eq!(dragged, None);
}

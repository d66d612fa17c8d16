use baseview::{
    handle_client_message, handle_dragging_event, ClientMessage, Data,
    DndAtoms, DndDataParseError, DragCursor, DragHandler, DropHandler, EventLoop,
    NativeEvent, SelectionRequest, WindowEvent,
};

const THIS: u32 = 0x100;
const PEER: u32 = 0x200;

fn atoms() -> DndAtoms {
    DndAtoms {
        wm_protocols: 1,
        wm_delete_window: 2,
        dnd_enter: 3,
        dnd_leave: 4,
        dnd_drop: 5,
        dnd_position: 6,
        dnd_status: 7,
        dnd_action_private: 8,
        dnd_action_copy: 9,
        dnd_selection: 10,
        dnd_finished: 11,
        dnd_type_list: 12,
        dnd_uri_list: 13,
        dnd_baseview_transfer: 14,
    }
}

fn path(p: &str) -> Data {
    Data::Filepath(p.to_string())
}

/// Runs one client message through a target window.
fn deliver(
    drop: &mut DropHandler,
    lp: &mut EventLoop,
    message_type: u32,
    data: (u32, u32, u32, u32, u32),
    valid: bool,
) -> baseview::TargetOutcome {
    handle_client_message(drop, lp, &atoms(), THIS, message_type, data, valid)
}

#[test]
fn round_trip_of_one_path_yields_one_drop() {
    let a = atoms();
    // The source starts a drag and enters the target.
    let mut source = DragHandler::new();
    source.activate(path("/a/b"));
    let sent = source.motion(&a, PEER, THIS, 10, 20);
    assert_eq!(sent.len(), 2);
    assert_eq!(sent[0].message_type, a.dnd_enter);
    assert_eq!(sent[1].message_type, a.dnd_position);

    // The target accepts and asks for the payload.
    let mut target = DropHandler::new();
    let mut lp = EventLoop::new();
    let out = deliver(&mut target, &mut lp, sent[0].message_type, sent[0].data, true);
    assert!(out.read_types_of.is_none());
    let out = deliver(&mut target, &mut lp, sent[1].message_type, sent[1].data, true);
    assert_eq!(out.messages.len(), 1);
    assert_eq!(out.messages[0].data.1, 1);
    assert_eq!(out.events, vec![WindowEvent::Dragging]);
    assert_eq!(out.hover, Some((10, 20)));
    let fetch = out.fetch.expect("one fetch");

    // The source answers the request for the payload.
    let req = SelectionRequest {
        owner: PEER,
        requestor: THIS,
        selection: fetch.selection,
        target: fetch.target,
        property: fetch.property,
        time: fetch.time,
    };
    let reply = source.selection_requst(&a, PEER, &req);
    assert_eq!(reply.bytes, b"file:///a/b".to_vec());

    // The target reads the bytes; then the drop comes.
    let parsed = target.parse_data(&reply.bytes);
    assert_eq!(parsed, Ok(vec!["/a/b".to_string()]));
    let announced = target.fetch_completed(parsed);
    assert_eq!(announced, vec![WindowEvent::DragEnter(path("/a/b"))]);
    let drop_msg = source.do_drop(&a, PEER).expect("drop message");
    let out = deliver(&mut target, &mut lp, drop_msg.message_type, drop_msg.data, true);
    assert_eq!(out.events, vec![WindowEvent::Drop(path("/a/b"))]);
    assert!(!out.events.contains(&WindowEvent::DragLeave));
    assert_eq!(out.messages[0].message_type, a.dnd_finished);
    assert_eq!(out.messages[0].data.1, 1);
}

#[test]
fn unsupported_types_are_rejected_without_fetch() {
    let a = atoms();
    let mut target = DropHandler::new();
    let mut lp = EventLoop::new();
    // Enter offering one type that is not a URI list.
    let out = deliver(&mut target, &mut lp, a.dnd_enter, (PEER, 5 << 24, 99, 0, 0), true);
    assert!(out.read_types_of.is_none());
    let out = deliver(&mut target, &mut lp, a.dnd_position, (PEER, 0, (1 << 16) | 2, 0, 0), true);
    assert_eq!(out.messages, vec![ClientMessage {
        window: PEER,
        message_type: a.dnd_status,
        data: (THIS, 0, 0, 0, 0),
    }]);
    assert!(out.fetch.is_none());
    assert!(out.events.is_empty());
    // A second position still asks for nothing.
    let out = deliver(&mut target, &mut lp, a.dnd_position, (PEER, 0, 0, 0, 0), true);
    assert!(out.fetch.is_none());
    assert_eq!(out.messages[0].data.1, 0);
}

#[test]
fn failed_fetch_then_drop_is_one_leave_and_rejected() {
    let a = atoms();
    let mut target = DropHandler::new();
    let mut lp = EventLoop::new();
    deliver(&mut target, &mut lp, a.dnd_enter, (PEER, 5 << 24, a.dnd_uri_list, 0, 0), true);
    let out = deliver(&mut target, &mut lp, a.dnd_position, (PEER, 0, 0, 7, 0), true);
    assert!(out.fetch.is_some());
    let announced = target.fetch_completed(Err(DndDataParseError::EmptyData));
    assert!(announced.is_empty());
    let out = deliver(&mut target, &mut lp, a.dnd_drop, (PEER, 0, 0, 0, 0), true);
    assert_eq!(out.events, vec![WindowEvent::DragLeave]);
    assert_eq!(out.messages, vec![ClientMessage {
        window: PEER,
        message_type: a.dnd_finished,
        data: (THIS, 0, 0, 0, 0),
    }]);
}

#[test]
fn escape_while_entered_cancels_and_ignores_late_status() {
    let a = atoms();
    let mut source = DragHandler::new();
    source.activate(path("/x"));
    source.motion(&a, THIS, PEER, 1, 1);
    let out = handle_dragging_event(&mut source, &a, THIS, &NativeEvent::KeyPress { escape: true });
    assert!(out.consumed);
    assert!(!source.is_active());
    assert!(source.data.is_none());
    assert_eq!(out.cursor, Some(DragCursor::Default));
    assert_eq!(out.messages, vec![ClientMessage {
        window: PEER,
        message_type: a.dnd_leave,
        data: (THIS, 0, 0, 0, 0),
    }]);
    // The abandoned peer's late reply changes nothing and sends nothing.
    let late = source.handle_status(&a, THIS, 1);
    assert!(late.is_none());
    assert!(!source.is_active());
    assert!(source.data.is_none());
}

#[test]
fn position_queries_are_coalesced() {
    let a = atoms();
    let mut source = DragHandler::new();
    source.activate(path("/x"));
    let first = source.motion(&a, THIS, PEER, 1, 1);
    assert_eq!(first.len(), 2);
    // Samples arriving before the reply send nothing.
    assert!(source.motion(&a, THIS, PEER, 2, 2).is_empty());
    assert!(source.motion(&a, THIS, PEER, 3, 4).is_empty());
    // The reply releases only the latest sample.
    let resent = source.handle_status(&a, THIS, 1).expect("latest sample");
    assert_eq!(resent.data.2, (3 << 16) | 4);
    assert!(source.will_accept());
    // Still waiting for the reply to that one.
    assert!(source.motion(&a, THIS, PEER, 5, 5).is_empty());
    assert!(source.waiting_for_status);
}

#[test]
fn leave_discards_a_late_fetch_result() {
    let a = atoms();
    let mut target = DropHandler::new();
    let mut lp = EventLoop::new();
    deliver(&mut target, &mut lp, a.dnd_enter, (PEER, 5 << 24, a.dnd_uri_list, 0, 0), true);
    deliver(&mut target, &mut lp, a.dnd_position, (PEER, 0, 0, 0, 0), true);
    let out = deliver(&mut target, &mut lp, a.dnd_leave, (PEER, 0, 0, 0, 0), true);
    assert_eq!(out.events, vec![WindowEvent::DragLeave]);
    let late = target.fetch_completed(Ok(vec!["/a".to_string()]));
    assert!(late.is_empty());
    assert!(target.result.is_none());
}

#[test]
fn only_one_fetch_per_sequence() {
    let a = atoms();
    let mut target = DropHandler::new();
    let mut lp = EventLoop::new();
    deliver(&mut target, &mut lp, a.dnd_enter, (PEER, 5 << 24, a.dnd_uri_list, 0, 0), true);
    assert!(deliver(&mut target, &mut lp, a.dnd_position, (PEER, 0, 0, 0, 0), true).fetch.is_some());
    assert!(deliver(&mut target, &mut lp, a.dnd_position, (PEER, 0, 0, 0, 0), true).fetch.is_none());
}

#[test]
fn invalid_target_rejects_but_keeps_the_sequence() {
    let a = atoms();
    let mut target = DropHandler::new();
    let mut lp = EventLoop::new();
    deliver(&mut target, &mut lp, a.dnd_enter, (PEER, 5 << 24, a.dnd_uri_list, 0, 0), true);
    let out = deliver(&mut target, &mut lp, a.dnd_position, (PEER, 0, 0, 0, 0), false);
    assert_eq!(out.messages[0].data.1, 0);
    assert!(out.fetch.is_none());
    assert!(out.hover.is_none());
    assert_eq!(target.source_window, Some(PEER));
}

#[test]
fn enter_with_more_types_asks_for_the_list() {
    let a = atoms();
    let mut target = DropHandler::new();
    let mut lp = EventLoop::new();
    let out = deliver(&mut target, &mut lp, a.dnd_enter, (PEER, (5 << 24) | 1, 0, 0, 0), true);
    assert_eq!(out.read_types_of, Some(PEER));
    target.set_type_list(Some(vec![40, a.dnd_uri_list]));
    let out = deliver(&mut target, &mut lp, a.dnd_position, (PEER, 0, 0, 0, 0), true);
    assert_eq!(out.messages[0].data.1, 1);
}

#[test]
fn refused_selection_requests_get_no_payload() {
    let a = atoms();
    let mut source = DragHandler::new();
    source.activate(path("/a/b"));
    let req = SelectionRequest {
        owner: PEER,
        requestor: THIS,
        selection: a.dnd_selection,
        target: 999,
        property: 0,
        time: 5,
    };
    let reply = source.selection_requst(&a, PEER, &req);
    assert_eq!(reply.property, 0);
    assert!(reply.bytes.is_empty());
    let ok = SelectionRequest { target: a.dnd_uri_list, ..req };
    let reply = source.selection_requst(&a, PEER, &ok);
    assert_eq!(reply.property, a.dnd_selection);
    assert_eq!(reply.bytes, b"file:///a/b".to_vec());
}

#[test]
fn release_over_a_rejecting_peer_cancels() {
    let a = atoms();
    let mut source = DragHandler::new();
    source.activate(path("/x"));
    source.motion(&a, THIS, PEER, 1, 1);
    source.handle_status(&a, THIS, 0);
    assert!(!source.will_accept());
    let out = handle_dragging_event(&mut source, &a, THIS, &NativeEvent::ButtonRelease { detail: 1 });
    assert!(!out.consumed);
    assert_eq!(out.messages[0].message_type, a.dnd_leave);
    assert!(source.data.is_none());
    // Scroll steps are not releases.
    let mut other = DragHandler::new();
    other.activate(path("/x"));
    let out = handle_dragging_event(&mut other, &a, THIS, &NativeEvent::ButtonRelease { detail: 5 });
    assert!(out.messages.is_empty());
    assert!(other.is_active());
}

#[test]
fn other_keys_reach_the_handler_during_a_drag() {
    let a = atoms();
    let mut source = DragHandler::new();
    source.activate(path("/x"));
    let out = handle_dragging_event(&mut source, &a, THIS, &NativeEvent::KeyPress { escape: false });
    assert!(!out.consumed);
    assert!(source.is_active());
}

#[test]
fn entering_a_new_peer_announces_it_first() {
    let a = atoms();
    let mut source = DragHandler::new();
    source.activate(path("/x"));
    let first = source.motion(&a, THIS, PEER, 1, 1);
    assert_eq!(first[0], ClientMessage {
        window: PEER,
        message_type: a.dnd_enter,
        data: (THIS, 5 << 24, a.dnd_uri_list, 0, 0),
    });
    // Another peer while the query is outstanding: enter only.
    let second = source.motion(&a, THIS, PEER + 1, 2, 2);
    assert_eq!(second.len(), 1);
    assert_eq!(second[0].message_type, a.dnd_enter);
    assert_eq!(second[0].window, PEER + 1);
    let resent = source.handle_status(&a, THIS, 1).expect("deferred");
    assert_eq!(resent.window, PEER + 1);
    let dropped = source.do_drop(&a, THIS).expect("drop");
    assert_eq!(dropped, ClientMessage {
        window: PEER + 1,
        message_type: a.dnd_drop,
        data: (THIS, 0, 99, 0, 0),
    });
    assert!(source.data.is_some());
}

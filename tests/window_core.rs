use baseview::win::{
    DataObject, DragAction, DropHandler as ShellDropTarget, DropSource, Medium, CF_HDROP,
    DROPEFFECT_COPY, DROPEFFECT_NONE, TYMED_HGLOBAL, TYMED_ISTREAM,
};
use baseview::{
    classify_message, mouse_id, resolve_paths, start_drag, Data, DndAtoms, DndDataParseError,
    DropHandler, EventLoop, FramePacer, MessageKind, MouseButton, ParentHandle, PhySize,
    ResizeState, TaskQueue, Window, WindowEvent, WindowTask,
};

fn atoms() -> DndAtoms {
    DndAtoms {
        wm_protocols: 1,
        wm_delete_window: 2,
        dnd_enter: 3,
        dnd_leave: 4,
        dnd_drop: 5,
        dnd_position: 6,
        dnd_status: 7,
        dnd_action_private: 8,
        dnd_action_copy: 9,
        dnd_selection: 10,
        dnd_finished: 11,
        dnd_type_list: 12,
        dnd_uri_list: 13,
        dnd_baseview_transfer: 14,
    }
}

fn size(width: u32, height: u32) -> PhySize {
    PhySize { width, height }
}

#[test]
fn repeated_current_size_emits_no_resize() {
    let mut r = ResizeState::new(size(800, 600));
    r.begin_batch();
    for _ in 0..5 {
        r.report_size(size(800, 600));
    }
    assert_eq!(r.end_batch(), None);
    assert_eq!(r.current, size(800, 600));
}

#[test]
fn a_burst_of_sizes_emits_the_last_once() {
    let mut r = ResizeState::new(size(800, 600));
    r.begin_batch();
    r.report_size(size(801, 600));
    r.report_size(size(900, 700));
    r.report_size(size(1024, 768));
    assert_eq!(r.end_batch(), Some(size(1024, 768)));
    assert_eq!(r.current, size(1024, 768));
    r.begin_batch();
    assert_eq!(r.end_batch(), None);
}

#[test]
fn owner_drop_mid_callback_closes_once_at_iteration_end() {
    let (parent, handle) = ParentHandle::new();
    let mut lp = EventLoop::new();
    // The owner drops its handle while a callback runs: nothing happens yet.
    drop(handle);
    assert!(lp.running);
    // At the end of the iteration the window sees the flag.
    assert!(parent.parent_did_drop());
    assert_eq!(lp.end_iteration(parent.parent_did_drop()), Some(WindowEvent::WillClose));
    assert!(!lp.running);
    // Nothing further is emitted.
    assert_eq!(lp.end_iteration(true), None);
    assert_eq!(lp.handle_close_requested(), None);
}

#[test]
fn window_handle_close_is_idempotent() {
    let (parent, mut handle) = ParentHandle::new();
    assert!(handle.is_open());
    assert!(!parent.parent_did_drop());
    assert!(handle.close());
    assert!(!handle.close());
    assert!(parent.parent_did_drop());
    drop(parent);
    assert!(!handle.is_open());
}

#[test]
fn handler_close_request_takes_effect_at_iteration_end() {
    let mut w = Window::new();
    w.close();
    assert!(w.event_loop.running);
    assert_eq!(w.event_loop.end_iteration(false), Some(WindowEvent::WillClose));
    assert!(!w.event_loop.running);
}

#[test]
fn window_manager_close_then_owner_drop_is_one_will_close() {
    let mut lp = EventLoop::new();
    assert_eq!(lp.handle_close_requested(), Some(WindowEvent::WillClose));
    assert_eq!(lp.end_iteration(true), None);
}

#[test]
fn deferred_tasks_run_in_order() {
    let mut w = Window::new();
    w.resize(size(10, 20));
    start_drag(&mut w, Data::Filepath("/p".to_string()));
    w.resize(size(30, 40));
    assert_eq!(w.tasks.len(), 3);
    assert_eq!(w.tasks.pop(), Some(WindowTask::Resize(size(10, 20))));
    assert_eq!(w.tasks.pop(), Some(WindowTask::Drag(Data::Filepath("/p".to_string()))));
    // A task run from the queue may queue another one.
    w.tasks.push(WindowTask::Resize(size(50, 60)));
    assert_eq!(w.tasks.pop(), Some(WindowTask::Resize(size(30, 40))));
    assert_eq!(w.tasks.pop(), Some(WindowTask::Resize(size(50, 60))));
    assert_eq!(w.tasks.pop(), None);
    assert!(w.tasks.is_empty());
    let q = TaskQueue::new();
    assert_eq!(q.len(), 0);
}

#[test]
fn frames_are_paced_without_bursts() {
    let mut p = FramePacer::new(15_000, 1_000_000);
    assert_eq!(p.next_frame(), 1_015_000);
    assert_eq!(p.wait_time(1_010_000), 5_000);
    assert!(!p.poll_frame(1_010_000));
    assert!(p.poll_frame(1_015_000));
    assert_eq!(p.last_frame, 1_015_000);
    // A slow frame: the next one is scheduled from now, not from the backlog.
    assert!(p.poll_frame(1_100_000));
    assert_eq!(p.last_frame, 1_085_000);
    assert!(!p.poll_frame(1_099_999));
    assert_eq!(p.wait_time(1_200_000), 0);
}

#[test]
fn client_messages_are_classified() {
    let a = atoms();
    assert_eq!(classify_message(&a, a.wm_protocols, a.wm_delete_window), MessageKind::DeleteWindow);
    assert_eq!(classify_message(&a, a.dnd_enter, 77), MessageKind::Enter);
    assert_eq!(classify_message(&a, a.dnd_position, 77), MessageKind::Position);
    assert_eq!(classify_message(&a, a.dnd_drop, 77), MessageKind::Drop);
    assert_eq!(classify_message(&a, a.dnd_leave, 77), MessageKind::Leave);
    assert_eq!(classify_message(&a, a.dnd_status, 77), MessageKind::Status);
    assert_eq!(classify_message(&a, a.dnd_finished, 77), MessageKind::Finished);
    assert_eq!(classify_message(&a, 999, 77), MessageKind::Other);
}

#[test]
fn mouse_buttons_map_from_x11_numbers() {
    assert_eq!(mouse_id(1), MouseButton::Left);
    assert_eq!(mouse_id(2), MouseButton::Middle);
    assert_eq!(mouse_id(3), MouseButton::Right);
    assert_eq!(mouse_id(8), MouseButton::Back);
    assert_eq!(mouse_id(9), MouseButton::Forward);
    assert_eq!(mouse_id(12), MouseButton::Other(12));
}

#[test]
fn uri_lists_parse_and_fail_as_described() {
    let h = DropHandler::new();
    assert_eq!(h.parse_data(b""), Err(DndDataParseError::EmptyData));
    assert_eq!(
        h.parse_data(b"file:///a%20b/c\r\n\r\nfile:///d\r\n"),
        Ok(vec!["/a b/c".to_string(), "/d".to_string()])
    );
    assert_eq!(h.parse_data(b"%ff"), Err(DndDataParseError::InvalidUtf8));
    assert_eq!(
        h.parse_data(b"file://host/x"),
        Err(DndDataParseError::HostnameSpecified("host/x".to_string()))
    );
    assert_eq!(
        h.parse_data(b"http://x/y"),
        Err(DndDataParseError::UnexpectedProtocol("http://x/y".to_string()))
    );
    // A lone percent sign stays as it is.
    assert_eq!(h.parse_data(b"file:///100%"), Ok(vec!["/100%".to_string()]));
}

#[test]
fn unresolvable_paths_fail_the_payload() {
    let parsed = Ok(vec!["/a".to_string(), "/b".to_string()]);
    assert_eq!(
        resolve_paths(parsed.clone(), vec![Some("/real/a".to_string()), Some("/real/b".to_string())]),
        Ok(vec!["/real/a".to_string(), "/real/b".to_string()])
    );
    assert_eq!(
        resolve_paths(parsed, vec![Some("/real/a".to_string()), None]),
        Err(DndDataParseError::UnresolvablePath("/b".to_string()))
    );
    assert_eq!(
        resolve_paths(Err(DndDataParseError::EmptyData), vec![]),
        Err(DndDataParseError::EmptyData)
    );
}

#[test]
fn hdrop_bytes_hold_header_and_wide_path() {
    let obj = DataObject::create(Data::Filepath("/a".to_string()));
    let bytes = obj.data_for_hdrop();
    let mut expected = vec![20u8, 0, 0, 0, 0, 0, 0, 0, 0, 0, 0, 0, 0, 0, 0, 0, 1, 0, 0, 0];
    expected.extend_from_slice(&[b'/', 0, b'a', 0, 0, 0, 0, 0]);
    assert_eq!(bytes, expected);
    let wide = DataObject::create(Data::Filepath("\u{1F600}".to_string())).data_for_hdrop();
    assert_eq!(&wide[20..], &[0x3D, 0xD8, 0x00, 0xDE, 0, 0, 0, 0]);
}

#[test]
fn data_object_offers_file_drops_only() {
    let obj = DataObject::create(Data::Filepath("/a".to_string()));
    assert!(obj.query_get_data(TYMED_HGLOBAL, CF_HDROP));
    assert!(obj.query_get_data(TYMED_ISTREAM, CF_HDROP));
    assert!(!obj.query_get_data(TYMED_HGLOBAL, 1));
    assert!(!obj.query_get_data(2, CF_HDROP));
    assert_eq!(obj.get_data(TYMED_HGLOBAL | TYMED_ISTREAM).map(|(m, _)| m), Some(Medium::Global));
    assert_eq!(obj.get_data(TYMED_ISTREAM).map(|(m, _)| m), Some(Medium::Stream));
    assert!(obj.get_data(2).is_none());
}

#[test]
fn drop_source_follows_escape_and_button() {
    let s = DropSource::create();
    assert_eq!(s.query_continue_drag(true, 1), DragAction::Cancel);
    assert_eq!(s.query_continue_drag(false, 0), DragAction::Drop);
    assert_eq!(s.query_continue_drag(false, 1), DragAction::Continue);
}

#[test]
fn shell_drop_target_sequence() {
    let mut t = ShellDropTarget::new();
    let items = vec![Data::Filepath("/a".to_string())];
    let (events, effect) = t.drag_enter(&Some(items.clone()), true);
    assert_eq!(events, vec![WindowEvent::DragEnter(Data::Filepath("/a".to_string()))]);
    assert_eq!(effect, DROPEFFECT_COPY);
    assert_eq!(t.drag_over(false), (Some(WindowEvent::Dragging), DROPEFFECT_NONE));
    assert_eq!(t.drop(&items, true), vec![WindowEvent::Drop(Data::Filepath("/a".to_string()))]);
    assert_eq!(t.drop(&items, false), vec![WindowEvent::DragLeave]);
    assert_eq!(t.drag_leave(), WindowEvent::DragLeave);
    let mut other = ShellDropTarget::new();
    let (events, effect) = other.drag_enter(&None, true);
    assert!(events.is_empty());
    assert_eq!(effect, DROPEFFECT_NONE);
    assert_eq!(other.drag_over(true), (None, DROPEFFECT_NONE));
}

#[test]
fn capture_is_released_with_the_last_button() {
    let mut c = baseview::win::ButtonCapture::new();
    c.press();
    c.press();
    assert!(!c.release());
    assert!(c.release());
    assert!(c.release());
    assert_eq!(c.held, 0);
}

#[test]
fn cursor_visibility_changes_only_on_a_switch() {
    let mut c = baseview::CursorState::new();
    assert_eq!(c.set_hidden(false), baseview::VisibilityChange::Keep);
    assert_eq!(c.set_hidden(true), baseview::VisibilityChange::Hide);
    assert_eq!(c.set_hidden(true), baseview::VisibilityChange::Keep);
    assert_eq!(c.set_hidden(false), baseview::VisibilityChange::Show);
    assert!(c.visible);
}

#[test]
fn an_empty_list_drops_as_a_leave() {
    let a = atoms();
    let mut target = DropHandler::new();
    let mut lp = EventLoop::new();
    handle_msg(&mut target, &mut lp, a.dnd_enter, (7, 5 << 24, a.dnd_uri_list, 0, 0));
    handle_msg(&mut target, &mut lp, a.dnd_position, (7, 0, 0, 0, 0));
    let parsed = target.parse_data(b"\r\n\r\n");
    assert_eq!(parsed, Ok(vec![]));
    assert!(target.fetch_completed(parsed).is_empty());
    let out = handle_msg(&mut target, &mut lp, a.dnd_drop, (7, 0, 0, 0, 0));
    assert_eq!(out.events, vec![WindowEvent::DragLeave]);
    assert_eq!(out.messages[0].data.1, 0);
}

fn handle_msg(
    drop: &mut DropHandler,
    lp: &mut EventLoop,
    message_type: u32,
    data: (u32, u32, u32, u32, u32),
) -> baseview::TargetOutcome {
    baseview::handle_client_message(drop, lp, &atoms(), 1000, message_type, data, true)
}

#[test]
fn window_manager_close_through_client_message() {
    let a = atoms();
    let mut target = DropHandler::new();
    let mut lp = EventLoop::new();
    let out = handle_msg(&mut target, &mut lp, a.wm_protocols, (a.wm_delete_window, 0, 0, 0, 0));
    assert_eq!(out.events, vec![WindowEvent::WillClose]);
    assert!(!lp.running);
    let again = handle_msg(&mut target, &mut lp, a.wm_protocols, (a.wm_delete_window, 0, 0, 0, 0));
    assert!(again.events.is_empty());
}

#[test]
fn pacing_saturates_at_the_end_of_the_clock() {
    let mut p = FramePacer::new(15_000, u64::MAX - 10);
    assert_eq!(p.next_frame(), u64::MAX);
    assert!(!p.poll_frame(u64::MAX - 1));
    assert!(p.poll_frame(u64::MAX));
    assert_eq!(p.last_frame, u64::MAX);
}

#[test]
fn capture_count_saturates() {
    let mut c = baseview::win::ButtonCapture { held: usize::MAX };
    c.press();
    assert_eq!(c.held, usize::MAX);
    assert!(!c.release());
}

#[test]
fn version_zero_peers_get_the_current_time() {
    let a = atoms();
    let mut target = DropHandler::new();
    let mut lp = EventLoop::new();
    handle_msg(&mut target, &mut lp, a.dnd_enter, (7, 0, a.dnd_uri_list, 0, 0));
    let out = handle_msg(&mut target, &mut lp, a.dnd_position, (7, 0, 0, 1234, 0));
    let fetch = out.fetch.expect("fetch");
    assert_eq!(fetch.time, 0);
    assert_eq!(fetch.property, a.dnd_baseview_transfer);
    let mut other = DropHandler::new();
    handle_msg(&mut other, &mut lp, a.dnd_enter, (7, 5 << 24, a.dnd_uri_list, 0, 0));
    let out = handle_msg(&mut other, &mut lp, a.dnd_position, (7, 0, 0, 1234, 0));
    assert_eq!(out.fetch.expect("fetch").time, 1234);
}

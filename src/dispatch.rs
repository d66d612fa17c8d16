use vstd::prelude::*;

use crate::drag_source::{
    answers, drop_message, leave_message, motion_step, status_step, DragHandler, SelectionReply,
    SelectionRequest,
};
use crate::drop_target::{
    drop_events, dropped_paths, finished_message, is_idle, offers_uri_list, status_message,
    DndState, DropHandler, FetchRequest,
};
use crate::event::WindowEvent;
use crate::lifecycle::{loop_step, EventLoop, LoopInput};
use crate::protocol::{classify_message, kind_of, ClientMessage, DndAtoms, MessageKind};

verus! {

/// A native event, as far as an outbound drag cares about it.
#[derive(Debug, Clone, Copy, PartialEq, Eq)]
pub enum NativeEvent {
    /// The pointer moved; `target` is the deepest window under it.
    Motion { detail: u8, root_x: u32, root_y: u32, target: u32 },
    /// A pointer button was released.
    ButtonRelease { detail: u8 },
    /// A key was pressed; `escape` says whether it was the Escape key.
    KeyPress { escape: bool },
    /// A client message of the given type with its five words.
    ClientMessage { message_type: u32, data: (u32, u32, u32, u32, u32) },
    /// A peer asks for a selection.
    SelectionRequest(SelectionRequest),
    /// Anything else.
    Other,
}

/// The cursor to show during a drag.
#[derive(Debug, Clone, Copy, PartialEq, Eq, Structural)]
pub enum DragCursor {
    Grabbing,
    NotAllowed,
    Default,
}

/// What the platform must do after an event arrived during a drag.
#[derive(Debug, Clone, PartialEq, Eq)]
pub struct DragOutcome {
    /// Whether the event is used up; if not, it still goes to the handler.
    pub consumed: bool,
    /// Protocol messages to send, in order.
    pub messages: Vec<ClientMessage>,
    /// The cursor to switch to, if any.
    pub cursor: Option<DragCursor>,
    /// The answer to a selection request, if any.
    pub reply: Option<SelectionReply>,
}

/// Whether an X11 button number stands for a scroll step.
pub open spec fn is_scroll(detail: u8) -> bool {
    4 <= detail <= 7
}

/// The cursor that shows whether the peer accepts.
pub open spec fn feedback_cursor(accept: bool) -> DragCursor {
    if accept {
        DragCursor::Grabbing
    } else {
        DragCursor::NotAllowed
    }
}

fn opt_to_vec(m: Option<ClientMessage>) -> (r: Vec<ClientMessage>)
    ensures
        r@ == match m {
            Some(x) => seq![x],
            None => Seq::<ClientMessage>::empty(),
        },
{
    let mut v: Vec<ClientMessage> = Vec::new();
    match m {
        Some(x) => {
            v.push(x);
            assert(v@ =~= seq![x]);
        },
        None => {},
    }
    v
}

/// Routes an event that arrived while `drag` is in progress.
///
/// Pointer motion (other than scroll steps) moves the drag and is used up.
/// A button release (other than a scroll step) drops, and still reaches the
/// handler. Escape cancels the drag; other keys reach the handler. Status
/// replies update the drag; finished messages and selection requests are
/// answered; anything else reaches the handler.
pub fn handle_dragging_event(
    drag: &mut DragHandler,
    atoms: &DndAtoms,
    this_window: u32,
    event: &NativeEvent,
) -> (r: DragOutcome)
    ensures
        match *event {
            NativeEvent::Motion { detail, root_x, root_y, target } => {
                &&& r.consumed
                &&& r.cursor == Some(feedback_cursor(old(drag).accept))
                &&& r.reply.is_none()
                &&& if detail == 4 || detail == 5 {
                    *final(drag) == *old(drag) && r.messages@.len() == 0
                } else {
                    (*final(drag), r.messages@) == motion_step(
                        *old(drag),
                        *atoms,
                        this_window,
                        target,
                        (root_x, root_y),
                    )
                }
            },
            NativeEvent::ButtonRelease { detail } => {
                &&& !r.consumed
                &&& r.reply.is_none()
                &&& if is_scroll(detail) {
                    *final(drag) == *old(drag) && r.messages@.len() == 0 && r.cursor.is_none()
                } else {
                    &&& !final(drag).active
                    &&& r.cursor == Some(DragCursor::Default)
                    &&& final(drag).data == if old(drag).accept {
                        old(drag).data
                    } else {
                        None
                    }
                    &&& r.messages@ == match old(drag).target_window {
                        Some(t) => seq![
                            if old(drag).accept {
                                drop_message(*atoms, this_window, t)
                            } else {
                                leave_message(*atoms, this_window, t)
                            },
                        ],
                        None => Seq::<ClientMessage>::empty(),
                    }
                }
            },
            NativeEvent::KeyPress { escape } => {
                &&& r.consumed == escape
                &&& r.reply.is_none()
                &&& if escape {
                    &&& !final(drag).active
                    &&& final(drag).data.is_none()
                    &&& r.cursor == Some(DragCursor::Default)
                    &&& r.messages@ == match old(drag).target_window {
                        Some(t) => seq![leave_message(*atoms, this_window, t)],
                        None => Seq::<ClientMessage>::empty(),
                    }
                } else {
                    *final(drag) == *old(drag) && r.messages@.len() == 0 && r.cursor.is_none()
                }
            },
            NativeEvent::ClientMessage { message_type, data } => {
                &&& r.reply.is_none()
                &&& match kind_of(*atoms, message_type, data.0) {
                    MessageKind::Status => {
                        let (h, m) = status_step(*old(drag), *atoms, this_window, data.1);
                        &&& r.consumed
                        &&& *final(drag) == h
                        &&& r.messages@ == match m {
                            Some(x) => seq![x],
                            None => Seq::<ClientMessage>::empty(),
                        }
                        &&& r.cursor == Some(feedback_cursor(h.accept))
                    },
                    MessageKind::Finished => r.consumed && *final(drag) == *old(drag)
                        && r.messages@.len() == 0 && r.cursor.is_none(),
                    _ => !r.consumed && *final(drag) == *old(drag) && r.messages@.len() == 0
                        && r.cursor.is_none(),
                }
            },
            NativeEvent::SelectionRequest(req) => {
                &&& r.consumed
                &&& *final(drag) == *old(drag)
                &&& r.messages@.len() == 0
                &&& r.cursor.is_none()
                &&& r.reply matches Some(reply) && answers(*old(drag), *atoms, this_window, req, reply)
            },
            NativeEvent::Other => {
                &&& !r.consumed
                &&& *final(drag) == *old(drag)
                &&& r.messages@.len() == 0
                &&& r.cursor.is_none()
                &&& r.reply.is_none()
            },
        },
{
    match event {
        NativeEvent::Motion { detail, root_x, root_y, target } => {
            let cursor = if drag.will_accept() {
                DragCursor::Grabbing
            } else {
                DragCursor::NotAllowed
            };
            let messages = if *detail != 4 && *detail != 5 {
                drag.motion(atoms, this_window, *target, *root_x, *root_y)
            } else {
                Vec::new()
            };
            DragOutcome { consumed: true, messages, cursor: Some(cursor), reply: None }
        },
        NativeEvent::ButtonRelease { detail } => {
            if 4 <= *detail && *detail <= 7 {
                DragOutcome { consumed: false, messages: Vec::new(), cursor: None, reply: None }
            } else {
                let m = drag.do_drop(atoms, this_window);
                DragOutcome {
                    consumed: false,
                    messages: opt_to_vec(m),
                    cursor: Some(DragCursor::Default),
                    reply: None,
                }
            }
        },
        NativeEvent::KeyPress { escape } => {
            if *escape {
                let m = drag.cancel(atoms, this_window);
                DragOutcome {
                    consumed: true,
                    messages: opt_to_vec(m),
                    cursor: Some(DragCursor::Default),
                    reply: None,
                }
            } else {
                DragOutcome { consumed: false, messages: Vec::new(), cursor: None, reply: None }
            }
        },
        NativeEvent::ClientMessage { message_type, data } => {
            match classify_message(atoms, *message_type, data.0) {
                MessageKind::Status => {
                    let m = drag.handle_status(atoms, this_window, data.1);
                    let cursor = if drag.will_accept() {
                        DragCursor::Grabbing
                    } else {
                        DragCursor::NotAllowed
                    };
                    DragOutcome {
                        consumed: true,
                        messages: opt_to_vec(m),
                        cursor: Some(cursor),
                        reply: None,
                    }
                },
                MessageKind::Finished => DragOutcome {
                    consumed: true,
                    messages: Vec::new(),
                    cursor: None,
                    reply: None,
                },
                _ => DragOutcome { consumed: false, messages: Vec::new(), cursor: None, reply: None },
            }
        },
        NativeEvent::SelectionRequest(req) => {
            let reply = drag.selection_requst(atoms, this_window, req);
            DragOutcome { consumed: true, messages: Vec::new(), cursor: None, reply: Some(reply) }
        },
        NativeEvent::Other => DragOutcome {
            consumed: false,
            messages: Vec::new(),
            cursor: None,
            reply: None,
        },
    }
}

} // verus!

verus! {

/// What the platform must do after a client message reached a window that is
/// not dragging anything out.
#[derive(Debug, Clone, PartialEq, Eq)]
pub struct TargetOutcome {
    /// Protocol messages to send, in order.
    pub messages: Vec<ClientMessage>,
    /// Events for the handler, in order, after the pointer report if any.
    pub events: Vec<WindowEvent>,
    /// The peer whose full type list must be read and handed to
    /// `DropHandler::set_type_list`.
    pub read_types_of: Option<u32>,
    /// The payload fetch to start.
    pub fetch: Option<FetchRequest>,
    /// Root coordinates to translate and report as the pointer position,
    /// before the events.
    pub hover: Option<(u32, u32)>,
}

/// Routes a client message of type `message_type` with words `data` to the
/// window's loop and its drop target; `target_valid` is what the embedder's
/// predicate says of the element under the pointer.
pub fn handle_client_message(
    drop: &mut DropHandler,
    event_loop: &mut EventLoop,
    atoms: &DndAtoms,
    this_window: u32,
    message_type: u32,
    data: (u32, u32, u32, u32, u32),
    target_valid: bool,
) -> (r: TargetOutcome)
    ensures
        kind_of(*atoms, message_type, data.0) != MessageKind::DeleteWindow ==> *final(event_loop)
            == *old(event_loop),
        match kind_of(*atoms, message_type, data.0) {
            MessageKind::DeleteWindow => {
                let (l, e) = loop_step(*old(event_loop), LoopInput::WindowManagerClose);
                &&& *final(event_loop) == l
                &&& r.events@ == match e {
                    Some(x) => seq![x],
                    None => Seq::<WindowEvent>::empty(),
                }
                &&& r.messages@.len() == 0 && r.fetch.is_none() && r.hover.is_none()
                &&& r.read_types_of.is_none()
            },
            MessageKind::Enter => {
                &&& final(drop).version == Some(data.1 >> 24u32)
                &&& final(drop).source_window.is_none() && final(drop).result.is_none()
                &&& !final(drop).fetch_requested
                &&& (data.1 & 1u32 == 0 ==> r.read_types_of.is_none() && (final(drop).type_list matches Some(l) && l@
                    == seq![data.2, data.3, data.4]))
                &&& (data.1 & 1u32 != 0 ==> r.read_types_of == Some(data.0))
                &&& r.messages@.len() == 0 && r.events@.len() == 0
                &&& r.fetch.is_none() && r.hover.is_none()
            },
            MessageKind::Position => {
                &&& r.read_types_of.is_none()
                &&& r.messages@ == seq![
                    status_message(
                        *atoms,
                        this_window,
                        data.0,
                        if offers_uri_list(*old(drop), *atoms) && target_valid {
                            DndState::Accepted
                        } else {
                            DndState::Rejected
                        },
                    ),
                ]
                &&& r.events@ == if r.hover.is_some() {
                    seq![WindowEvent::Dragging]
                } else {
                    Seq::<WindowEvent>::empty()
                }
                &&& r.hover.is_some() == (offers_uri_list(*old(drop), *atoms) && target_valid)
                &&& r.fetch.is_some() == (offers_uri_list(*old(drop), *atoms) && target_valid
                    && !old(drop).fetch_requested)
                &&& !offers_uri_list(*old(drop), *atoms) ==> is_idle(*final(drop))
                &&& offers_uri_list(*old(drop), *atoms) ==> {
                    &&& final(drop).source_window == Some(data.0)
                    &&& final(drop).version == old(drop).version
                    &&& final(drop).type_list == old(drop).type_list
                    &&& final(drop).result == old(drop).result
                    &&& final(drop).fetch_requested == (old(drop).fetch_requested || target_valid)
                    &&& (target_valid ==> r.hover == Some((data.2 >> 16u32, data.2 & 0xFFFFu32)))
                    &&& (r.fetch matches Some(f) ==> f.requestor == this_window && f.selection
                        == atoms.dnd_selection && f.target == atoms.dnd_uri_list && f.property
                        == atoms.dnd_baseview_transfer)
                }
            },
            MessageKind::Drop => {
                &&& r.events@ == drop_events(old(drop).result)
                &&& r.messages@ == seq![
                    finished_message(
                        *atoms,
                        this_window,
                        old(drop).source_window.unwrap_or(data.0),
                        if dropped_paths(old(drop).result).is_some() {
                            DndState::Accepted
                        } else {
                            DndState::Rejected
                        },
                    ),
                ]
                &&& is_idle(*final(drop))
                &&& r.fetch.is_none() && r.hover.is_none() && r.read_types_of.is_none()
            },
            MessageKind::Leave => {
                &&& r.events@ == seq![WindowEvent::DragLeave]
                &&& is_idle(*final(drop))
                &&& r.messages@.len() == 0
                &&& r.fetch.is_none() && r.hover.is_none() && r.read_types_of.is_none()
            },
            _ => {
                &&& *final(drop) == *old(drop)
                &&& r.messages@.len() == 0 && r.events@.len() == 0
                &&& r.fetch.is_none() && r.hover.is_none() && r.read_types_of.is_none()
            },
        },
{
    let none = TargetOutcome {
        messages: Vec::new(),
        events: Vec::new(),
        read_types_of: None,
        fetch: None,
        hover: None,
    };
    match classify_message(atoms, message_type, data.0) {
        MessageKind::DeleteWindow => {
            let mut events: Vec<WindowEvent> = Vec::new();
            match event_loop.handle_close_requested() {
                Some(e) => {
                    events.push(e);
                    assert(events@ =~= seq![e]);
                },
                None => {},
            }
            TargetOutcome { events, ..none }
        },
        MessageKind::Enter => {
            let read_types_of = drop.enter(data.0, data.1, (data.2, data.3, data.4));
            TargetOutcome { read_types_of, ..none }
        },
        MessageKind::Position => {
            let reply = drop.position(atoms, this_window, data.0, data.2, data.3, target_valid);
            let mut messages: Vec<ClientMessage> = Vec::new();
            messages.push(reply.status);
            let mut events: Vec<WindowEvent> = Vec::new();
            if reply.hover.is_some() {
                events.push(WindowEvent::Dragging);
            }
            assert(messages@ =~= seq![reply.status]);
            assert(reply.hover.is_some() ==> events@ =~= seq![WindowEvent::Dragging]);
            TargetOutcome { messages, events, fetch: reply.fetch, hover: reply.hover, ..none }
        },
        MessageKind::Drop => {
            let (events, finished) = drop.drop(atoms, this_window, data.0);
            let mut messages: Vec<ClientMessage> = Vec::new();
            messages.push(finished);
            assert(messages@ =~= seq![finished]);
            TargetOutcome { messages, events, ..none }
        },
        MessageKind::Leave => {
            let e = drop.leave();
            let mut events: Vec<WindowEvent> = Vec::new();
            events.push(e);
            assert(events@ =~= seq![e]);
            TargetOutcome { events, ..none }
        },
        _ => none,
    }
}

} // verus!

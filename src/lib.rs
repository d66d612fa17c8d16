//! Platform-independent core of a windowing shim: the window lifecycle, resize
//! coalescing, the deferred task queue and the XDND-style drag-and-drop
//! protocol engines, as state machines over plain values.
//!
//! Everything that talks to a native window system (creating windows, pumping
//! messages, sending protocol messages) stays with the caller; the types here
//! decide what to do and say so in their contracts.

mod event;
mod window_info;
mod protocol;
mod drag_source;
mod uri_list;
mod drop_target;
mod lifecycle;
mod window;
mod dispatch;
pub mod win;
mod round_trip;

pub use event::{mouse_id, Data, MouseButton, PhySize, WindowEvent};
pub use window_info::{lemma_repeated_size_is_silent, reported, reported_all, ResizeState};
pub use protocol::{
    classify_message, kind_of, ClientMessage, DndAtoms, MessageKind, MESSAGE_TIME, NONE,
    PROTOCOL_VERSION,
};
pub use drag_source::{
    answers, drop_message, enter_message, file_scheme, file_uri, leave_message,
    lemma_one_position_in_flight, motion_step, position_message, positions_in, source_run,
    status_step, uri_bytes, DragHandler, SelectionClaim, SelectionReply, SelectionRequest,
    SourceInput,
};
pub use uri_list::{
    after_paths, crlf, file_scheme_chars, hex_value, is_hex_digit, parse_lines,
    percent_decoded, remove_all, reports, slash, split_from, split_on, text_lines, uri_lines,
    DndDataParseError, UriLines,
};
pub use drop_target::{
    drop_events, dropped_paths, enter_events, finished_message, is_idle, offers_uri_list,
    resolutions, resolve_paths, resolved_up_to, resolves_to, status_message, DndState,
    DropHandler, FetchRequest, PositionReply,
};
pub use lifecycle::{
    lemma_single_will_close, loop_run, loop_step, EventLoop, LoopInput, ParentHandle,
    WindowHandle,
};
pub use window::{
    next_frame_at, start_drag, CursorState, FramePacer, TaskQueue, VisibilityChange, Window,
    WindowTask,
};
pub use dispatch::{
    feedback_cursor, handle_client_message, handle_dragging_event, is_scroll, DragCursor,
    DragOutcome, NativeEvent, TargetOutcome,
};
pub use round_trip::{lacks, lemma_path_round_trip, plain_absolute_path};

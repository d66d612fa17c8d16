use vstd::prelude::*;

verus! {

/// The protocol version this library speaks and announces.
pub const PROTOCOL_VERSION: u32 = 5;

/// The timestamp placed in the messages this library sends as a drag source.
pub const MESSAGE_TIME: u32 = 99;

/// The value of an X11 atom or time stamp that stands for "none" or "now".
pub const NONE: u32 = 0;

/// The atoms of one connection that the drag-and-drop protocol uses. The
/// platform layer interns them and hands them over as plain numbers.
#[derive(Debug, Clone, Copy, PartialEq, Eq, Structural)]
pub struct DndAtoms {
    pub wm_protocols: u32,
    pub wm_delete_window: u32,
    pub dnd_enter: u32,
    pub dnd_leave: u32,
    pub dnd_drop: u32,
    pub dnd_position: u32,
    pub dnd_status: u32,
    pub dnd_action_private: u32,
    pub dnd_action_copy: u32,
    pub dnd_selection: u32,
    pub dnd_finished: u32,
    pub dnd_type_list: u32,
    pub dnd_uri_list: u32,
    pub dnd_baseview_transfer: u32,
}

/// A protocol message to send to a peer window: its type and five data words.
#[derive(Debug, Clone, Copy, PartialEq, Eq)]
pub struct ClientMessage {
    /// The window that receives the message.
    pub window: u32,
    /// The atom naming the message.
    pub message_type: u32,
    /// The message's five 32-bit words.
    pub data: (u32, u32, u32, u32, u32),
}

/// What an incoming client message means to this library.
#[derive(Debug, Clone, Copy, PartialEq, Eq, Structural)]
pub enum MessageKind {
    /// A drag target's answer to a position message.
    Status,
    /// A drag target has finished with a drop.
    Finished,
    /// The window manager asks the window to close.
    DeleteWindow,
    /// A drag source entered the window.
    Enter,
    /// A drag source moved over the window.
    Position,
    /// A drag source dropped on the window.
    Drop,
    /// A drag source left the window.
    Leave,
    /// Anything else.
    Other,
}

/// The meaning of a client message of type `message_type` whose first data
/// word is `first_word`.
pub open spec fn kind_of(atoms: DndAtoms, message_type: u32, first_word: u32) -> MessageKind {
    if message_type == atoms.dnd_status {
        MessageKind::Status
    } else if message_type == atoms.dnd_finished {
        MessageKind::Finished
    } else if first_word == atoms.wm_delete_window {
        MessageKind::DeleteWindow
    } else if message_type == atoms.dnd_enter {
        MessageKind::Enter
    } else if message_type == atoms.dnd_position {
        MessageKind::Position
    } else if message_type == atoms.dnd_drop {
        MessageKind::Drop
    } else if message_type == atoms.dnd_leave {
        MessageKind::Leave
    } else {
        MessageKind::Other
    }
}

/// Classifies an incoming client message.
pub fn classify_message(atoms: &DndAtoms, message_type: u32, first_word: u32) -> (r: MessageKind)
    ensures
        r == kind_of(*atoms, message_type, first_word),
{
    if message_type == atoms.dnd_status {
        MessageKind::Status
    } else if message_type == atoms.dnd_finished {
        MessageKind::Finished
    } else if first_word == atoms.wm_delete_window {
        MessageKind::DeleteWindow
    } else if message_type == atoms.dnd_enter {
        MessageKind::Enter
    } else if message_type == atoms.dnd_position {
        MessageKind::Position
    } else if message_type == atoms.dnd_drop {
        MessageKind::Drop
    } else if message_type == atoms.dnd_leave {
        MessageKind::Leave
    } else {
        MessageKind::Other
    }
}

} // verus!

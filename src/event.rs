use vstd::prelude::*;

verus! {

/// The payload of a drag-and-drop operation.
#[derive(Debug, Clone, PartialEq, Eq)]
pub enum Data {
    /// A path on the local file system.
    Filepath(String),
}

impl Data {
    /// A copy of this payload.
    pub fn duplicate(&self) -> (r: Data)
        ensures
            r == *self,
    {
        match self {
            Data::Filepath(p) => Data::Filepath(p.clone()),
        }
    }
}

/// A size in physical pixels.
#[derive(Debug, Clone, Copy, PartialEq, Eq, Structural)]
pub struct PhySize {
    pub width: u32,
    pub height: u32,
}

/// Window-level events delivered to the user's handler.
#[derive(Debug, Clone, PartialEq, Eq)]
pub enum WindowEvent {
    /// The physical size of the window changed.
    Resized(PhySize),
    /// The window is about to close; no further events follow.
    WillClose,
    /// A payload entered the window during a drag.
    DragEnter(Data),
    /// An accepted drag moved over the window.
    Dragging,
    /// A drag left the window or was dropped without a usable payload.
    DragLeave,
    /// A payload was dropped on the window.
    Drop(Data),
}

/// A mouse button.
#[derive(Debug, Clone, Copy, PartialEq, Eq, Structural)]
pub enum MouseButton {
    Left,
    Middle,
    Right,
    Back,
    Forward,
    Other(u8),
}

/// The button that an X11 button number stands for.
pub open spec fn button_of(id: u8) -> MouseButton {
    if id == 1 {
        MouseButton::Left
    } else if id == 2 {
        MouseButton::Middle
    } else if id == 3 {
        MouseButton::Right
    } else if id == 8 {
        MouseButton::Back
    } else if id == 9 {
        MouseButton::Forward
    } else {
        MouseButton::Other(id)
    }
}

/// Maps an X11 button number to a mouse button.
pub fn mouse_id(id: u8) -> (r: MouseButton)
    ensures
        r == button_of(id),
{
    match id {
        1 => MouseButton::Left,
        2 => MouseButton::Middle,
        3 => MouseButton::Right,
        8 => MouseButton::Back,
        9 => MouseButton::Forward,
        id => MouseButton::Other(id),
    }
}

} // verus!

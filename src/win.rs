//! The pieces of the shell (OLE) drag-and-drop exchange that are decisions
//! rather than calls: the data object's formats and bytes, the drag source's
//! continue/drop/cancel rule, and the drop target's event sequence.

use vstd::prelude::*;

use crate::event::{Data, WindowEvent};

verus! {

/// The clipboard format of a list of dropped files.
pub const CF_HDROP: u16 = 15;

/// A storage medium held in global memory.
pub const TYMED_HGLOBAL: u32 = 1;

/// A storage medium held in a stream.
pub const TYMED_ISTREAM: u32 = 4;

/// The key-state bit of the left mouse button.
pub const MK_LBUTTON: u32 = 1;

/// The drop effect "nothing happens".
pub const DROPEFFECT_NONE: u32 = 0;

/// The drop effect "the payload is copied".
pub const DROPEFFECT_COPY: u32 = 1;

/// The size of the header that precedes the file names of a file drop.
pub const DROPFILES_SIZE: u32 = 20;

/// The UTF-16 encoding of one character.
pub open spec fn utf16_of_char(c: char) -> Seq<u16> {
    let v = c as u32;
    if v < 0x10000 {
        seq![v as u16]
    } else {
        let w = (v - 0x10000) as u32;
        seq![(0xD800u32 + (w >> 10u32)) as u16, (0xDC00u32 + (w & 0x3FFu32)) as u16]
    }
}

/// The UTF-16 encoding of `s`.
pub open spec fn utf16_of(s: Seq<char>) -> Seq<u16>
    decreases s.len(),
{
    if s.len() == 0 {
        seq![]
    } else {
        utf16_of_char(s[0]) + utf16_of(s.drop_first())
    }
}

/// The little-endian bytes of 16-bit units.
pub open spec fn le_bytes(units: Seq<u16>) -> Seq<u8>
    decreases units.len(),
{
    if units.len() == 0 {
        seq![]
    } else {
        seq![(units[0] % 256) as u8, (units[0] / 256) as u8] + le_bytes(units.drop_first())
    }
}

/// The header of a file drop: the offset of the names, a zero drop point,
/// a client-area flag that is off and a wide-character flag that is on,
/// each a little-endian 32-bit word.
pub open spec fn dropfiles_header() -> Seq<u8> {
    seq![20u8, 0, 0, 0, 0, 0, 0, 0, 0, 0, 0, 0, 0, 0, 0, 0, 1, 0, 0, 0]
}

/// The bytes of a file drop that names `path`: the header, the path in
/// UTF-16, and two terminating zero units.
pub open spec fn hdrop_bytes(path: Seq<char>) -> Seq<u8> {
    dropfiles_header() + le_bytes(utf16_of(path)) + seq![0u8, 0, 0, 0]
}

/// Relies on `str::encode_utf16`: the UTF-16 code units of the string.
#[verifier::external_body]
fn encode_utf16(s: &str) -> (r: Vec<u16>)
    ensures
        r@ == utf16_of(s@),
{
    s.encode_utf16().collect()
}

/// The medium a payload is handed out in.
#[derive(Debug, Clone, Copy, PartialEq, Eq, Structural)]
pub enum Medium {
    Global,
    Stream,
}

/// The data object a drag offers to the shell.
#[derive(Debug, Clone, PartialEq, Eq)]
pub struct DataObject {
    pub data: Data,
}

impl DataObject {
    /// A data object offering `data`.
    pub fn create(data: Data) -> (r: DataObject)
        ensures
            r.data == data,
    {
        DataObject { data }
    }

    /// The bytes of a file drop that names the dragged path.
    pub fn data_for_hdrop(&self) -> (r: Vec<u8>)
        ensures
            match self.data {
                Data::Filepath(p) => r@ == hdrop_bytes(p@),
            },
    {
        let path = match &self.data {
            Data::Filepath(p) => p,
        };
        let units = encode_utf16(path.as_str());
        let mut out: Vec<u8> = vec![20u8, 0, 0, 0, 0, 0, 0, 0, 0, 0, 0, 0, 0, 0, 0, 0, 1, 0, 0, 0];
        assert(out@ =~= dropfiles_header());
        let mut i: usize = 0;
        while i < units.len()
            invariant
                0 <= i <= units@.len(),
                out@ =~= dropfiles_header() + le_bytes(units@.take(i as int)),
            decreases units@.len() - i,
        {
            let u = units[i];
            out.push((u % 256) as u8);
            out.push((u / 256) as u8);
            proof {
                lemma_le_bytes_push(units@.take(i as int), u);
                assert(units@.take(i + 1 as int) =~= units@.take(i as int).push(u));
            }
            i = i + 1;
        }
        assert(units@.take(i as int) =~= units@);
        out.push(0);
        out.push(0);
        out.push(0);
        out.push(0);
        assert(out@ =~= hdrop_bytes(path@));
        out
    }

    /// Whether the object can hand out data in the format `cf_format` on
    /// the medium `tymed`: only file drops, in global memory or a stream.
    pub fn query_get_data(&self, tymed: u32, cf_format: u16) -> (r: bool)
        ensures
            r == ((tymed == TYMED_HGLOBAL || tymed == TYMED_ISTREAM) && cf_format == CF_HDROP),
    {
        (tymed == TYMED_HGLOBAL || tymed == TYMED_ISTREAM) && cf_format == CF_HDROP
    }

    /// The file-drop bytes and the medium to hand them out in for a request
    /// that accepts the media `tymed`: global memory if it may, else a
    /// stream if it may; `None` when it accepts neither.
    pub fn get_data(&self, tymed: u32) -> (r: Option<(Medium, Vec<u8>)>)
        ensures
            tymed & TYMED_HGLOBAL != 0 ==> (r matches Some((m, b)) && m == Medium::Global
                && b@ == match self.data {
                Data::Filepath(p) => hdrop_bytes(p@),
            }),
            tymed & TYMED_HGLOBAL == 0 && tymed & TYMED_ISTREAM != 0 ==> (r matches Some((m, b))
                && m == Medium::Stream && b@ == match self.data {
                Data::Filepath(p) => hdrop_bytes(p@),
            }),
            tymed & TYMED_HGLOBAL == 0 && tymed & TYMED_ISTREAM == 0 ==> r.is_none(),
    {
        if tymed & TYMED_HGLOBAL != 0 {
            Some((Medium::Global, self.data_for_hdrop()))
        } else if tymed & TYMED_ISTREAM != 0 {
            Some((Medium::Stream, self.data_for_hdrop()))
        } else {
            None
        }
    }
}

proof fn lemma_le_bytes_push(units: Seq<u16>, u: u16)
    ensures
        le_bytes(units.push(u)) == le_bytes(units) + seq![(u % 256) as u8, (u / 256) as u8],
    decreases units.len(),
{
    if units.len() == 0 {
        assert(units.push(u).drop_first() =~= Seq::<u16>::empty());
        assert(le_bytes(Seq::<u16>::empty()) == Seq::<u8>::empty());
        assert(le_bytes(units.push(u)) =~= seq![(u % 256) as u8, (u / 256) as u8]);
    } else {
        assert(units.push(u).drop_first() =~= units.drop_first().push(u));
        lemma_le_bytes_push(units.drop_first(), u);
        assert(le_bytes(units.push(u)) =~= le_bytes(units) + seq![(u % 256) as u8, (u / 256) as u8]);
    }
}

/// What a drag source tells the shell while the pointer is held.
#[derive(Debug, Clone, Copy, PartialEq, Eq, Structural)]
pub enum DragAction {
    Continue,
    Drop,
    Cancel,
}

/// The drag source the shell consults during a drag.
#[derive(Debug, Clone, Copy, PartialEq, Eq, Structural)]
pub struct DropSource {}

impl DropSource {
    /// A drag source.
    pub fn create() -> (r: DropSource) {
        DropSource {  }
    }

    /// Escape cancels; releasing the left button drops; otherwise the drag
    /// goes on.
    pub fn query_continue_drag(&self, escape_pressed: bool, key_state: u32) -> (r: DragAction)
        ensures
            r == if escape_pressed {
                DragAction::Cancel
            } else if key_state & MK_LBUTTON == 0 {
                DragAction::Drop
            } else {
                DragAction::Continue
            },
    {
        if escape_pressed {
            DragAction::Cancel
        } else if key_state & MK_LBUTTON == 0 {
            DragAction::Drop
        } else {
            DragAction::Continue
        }
    }
}

/// The drop target the shell drives while something is dragged over the
/// window.
#[derive(Debug, Clone, Copy, PartialEq, Eq, Structural)]
pub struct DropHandler {
    /// Whether what hovers is a list of files.
    pub hovered_is_valid: bool,
    /// The drop effect last reported to the shell.
    pub cursor_effect: u32,
}

/// The effect to report for a hovering payload.
pub open spec fn effect_for(valid: bool) -> u32 {
    if valid {
        DROPEFFECT_COPY
    } else {
        DROPEFFECT_NONE
    }
}

/// One event per item: `Drop` events if `drop`, else `DragEnter` events.
pub open spec fn each_item(items: Seq<Data>, drop: bool) -> Seq<WindowEvent> {
    items.map_values(
        |d: Data|
            if drop {
                WindowEvent::Drop(d)
            } else {
                WindowEvent::DragEnter(d)
            },
    )
}

fn item_events(items: &Vec<Data>, drop: bool) -> (r: Vec<WindowEvent>)
    ensures
        r@ == each_item(items@, drop),
{
    let mut out: Vec<WindowEvent> = Vec::new();
    let mut i: usize = 0;
    while i < items.len()
        invariant
            0 <= i <= items@.len(),
            out@ =~= each_item(items@.take(i as int), drop),
        decreases items@.len() - i,
    {
        let d = items[i].duplicate();
        if drop {
            out.push(WindowEvent::Drop(d));
        } else {
            out.push(WindowEvent::DragEnter(d));
        }
        i = i + 1;
        assert(items@.take(i as int) =~= items@.take(i - 1 as int).push(items@[i - 1]));
    }
    assert(items@.take(i as int) =~= items@);
    out
}

impl DropHandler {
    /// A target with nothing over it.
    pub fn new() -> (r: DropHandler)
        ensures
            !r.hovered_is_valid,
            r.cursor_effect == DROPEFFECT_NONE,
    {
        DropHandler { hovered_is_valid: false, cursor_effect: DROPEFFECT_NONE }
    }

    /// Something entered the window; `items` are its files, or `None` when
    /// it holds none. Each file is announced, and the returned effect says
    /// whether a drop would be taken.
    pub fn drag_enter(&mut self, items: &Option<Vec<Data>>, target_valid: bool) -> (r: (
        Vec<WindowEvent>,
        u32,
    ))
        ensures
            final(self).hovered_is_valid == items.is_some(),
            final(self).cursor_effect == effect_for(items.is_some() && target_valid),
            r.1 == final(self).cursor_effect,
            r.0@ == match *items {
                Some(v) => each_item(v@, false),
                None => Seq::<WindowEvent>::empty(),
            },
    {
        let events = match items {
            Some(v) => item_events(v, false),
            None => Vec::new(),
        };
        self.hovered_is_valid = items.is_some();
        self.cursor_effect = if self.hovered_is_valid && target_valid {
            DROPEFFECT_COPY
        } else {
            DROPEFFECT_NONE
        };
        (events, self.cursor_effect)
    }

    /// The pointer moved over the window. A list of files is reported as
    /// `Dragging` (after the pointer position) and its effect refreshed;
    /// anything else keeps the effect it had.
    pub fn drag_over(&mut self, target_valid: bool) -> (r: (Option<WindowEvent>, u32))
        ensures
            final(self).hovered_is_valid == old(self).hovered_is_valid,
            old(self).hovered_is_valid ==> r.0 == Some(WindowEvent::Dragging)
                && final(self).cursor_effect == effect_for(target_valid),
            !old(self).hovered_is_valid ==> r.0.is_none() && final(self).cursor_effect == old(
                self,
            ).cursor_effect,
            r.1 == final(self).cursor_effect,
    {
        if self.hovered_is_valid {
            self.cursor_effect = if target_valid {
                DROPEFFECT_COPY
            } else {
                DROPEFFECT_NONE
            };
            (Some(WindowEvent::Dragging), self.cursor_effect)
        } else {
            (None, self.cursor_effect)
        }
    }

    /// The drag left the window.
    pub fn drag_leave(&self) -> (r: WindowEvent)
        ensures
            r == WindowEvent::DragLeave,
    {
        WindowEvent::DragLeave
    }

    /// The payload was dropped; `items` are its files (none when it held
    /// none). On a valid target each file is dropped; when nothing was
    /// dropped the handler gets one `DragLeave`.
    pub fn drop(&self, items: &Vec<Data>, target_valid: bool) -> (r: Vec<WindowEvent>)
        ensures
            target_valid && items@.len() > 0 ==> r@ == each_item(items@, true),
            !(target_valid && items@.len() > 0) ==> r@ == seq![WindowEvent::DragLeave],
    {
        if target_valid && items.len() > 0 {
            item_events(items, true)
        } else {
            let mut out: Vec<WindowEvent> = Vec::new();
            out.push(WindowEvent::DragLeave);
            assert(out@ =~= seq![WindowEvent::DragLeave]);
            out
        }
    }
}

/// Counts the mouse buttons held down over the window, so that the pointer
/// is captured while any is held and released when the last one goes up.
#[derive(Debug, Clone, Copy, PartialEq, Eq, Structural)]
pub struct ButtonCapture {
    pub held: usize,
}

impl ButtonCapture {
    /// No button held.
    pub fn new() -> (r: ButtonCapture)
        ensures
            r.held == 0,
    {
        ButtonCapture { held: 0 }
    }

    /// A button went down; the pointer is to be captured.
    pub fn press(&mut self)
        ensures
            final(self).held == if old(self).held == usize::MAX {
                usize::MAX
            } else {
                (old(self).held + 1) as usize
            },
    {
        self.held = self.held.saturating_add(1);
    }

    /// A button went up; returns whether the capture is to be released,
    /// which is when no button is held any more.
    pub fn release(&mut self) -> (r: bool)
        ensures
            final(self).held == if old(self).held == 0 {
                0
            } else {
                (old(self).held - 1) as usize
            },
            r == (final(self).held == 0),
    {
        self.held = self.held.saturating_sub(1);
        self.held == 0
    }
}

} // verus!

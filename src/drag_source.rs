use vstd::prelude::*;

use crate::event::Data;
use crate::protocol::{ClientMessage, DndAtoms, MESSAGE_TIME, NONE, PROTOCOL_VERSION};

verus! {

/// The outbound side of a drag: what is dragged, which peer is under the
/// pointer, and whether a position query to it is still unanswered.
#[derive(Debug)]
pub struct DragHandler {
    /// The payload being dragged.
    pub data: Option<Data>,
    /// Whether a drag is in progress.
    pub active: bool,
    /// Whether the peer under the pointer last said it would accept a drop.
    pub accept: bool,
    /// Whether a position query is outstanding.
    pub waiting_for_status: bool,
    /// Whether a pointer sample arrived while a query was outstanding.
    pub deferred_position_message: bool,
    /// The peer under the pointer, once one has been entered.
    pub target_window: Option<u32>,
    /// The latest pointer position, in root coordinates.
    pub position: (u32, u32),
}

/// What the platform must do to offer a drag: make `window` the owner of the
/// `selection` and set its `type_list_property` to the single `offered_type`.
#[derive(Debug, Clone, Copy, PartialEq, Eq, Structural)]
pub struct SelectionClaim {
    pub window: u32,
    pub selection: u32,
    pub type_list_property: u32,
    pub offered_type: u32,
}

/// A peer's request for the dragged payload.
#[derive(Debug, Clone, Copy, PartialEq, Eq, Structural)]
pub struct SelectionRequest {
    pub owner: u32,
    pub requestor: u32,
    pub selection: u32,
    pub target: u32,
    pub property: u32,
    pub time: u32,
}

/// The answer to a peer's payload request: write `bytes` (of type `format`)
/// into `property` of `requestor`, then notify it. A `property` of `NONE`
/// tells the requestor that the payload is not available.
#[derive(Debug, Clone, PartialEq, Eq)]
pub struct SelectionReply {
    pub requestor: u32,
    pub selection: u32,
    pub target: u32,
    pub time: u32,
    pub property: u32,
    pub format: u32,
    pub bytes: Vec<u8>,
}

/// The bytes of `"file://"`.
pub open spec fn file_scheme() -> Seq<u8> {
    seq![102u8, 105u8, 108u8, 101u8, 58u8, 47u8, 47u8]
}

/// The URI that names a local path: `file://` followed by the path's UTF-8
/// bytes.
pub open spec fn file_uri(path: Seq<char>) -> Seq<u8> {
    file_scheme() + vstd::utf8::encode_utf8(path)
}

/// The message that tells `target` a drag of a URI list entered it.
pub open spec fn enter_message(atoms: DndAtoms, this_window: u32, target: u32) -> ClientMessage {
    ClientMessage {
        window: target,
        message_type: atoms.dnd_enter,
        data: (this_window, PROTOCOL_VERSION << 24u32, atoms.dnd_uri_list, 0, 0),
    }
}

/// The query that tells `target` where the pointer is and asks whether it
/// would take a copy.
pub open spec fn position_message(
    atoms: DndAtoms,
    this_window: u32,
    target: u32,
    position: (u32, u32),
) -> ClientMessage {
    ClientMessage {
        window: target,
        message_type: atoms.dnd_position,
        data: (
            this_window,
            0,
            (position.0 << 16u32) | position.1,
            MESSAGE_TIME,
            atoms.dnd_action_copy,
        ),
    }
}

/// The message that tells `target` to take the drop.
pub open spec fn drop_message(atoms: DndAtoms, this_window: u32, target: u32) -> ClientMessage {
    ClientMessage {
        window: target,
        message_type: atoms.dnd_drop,
        data: (this_window, 0, MESSAGE_TIME, 0, 0),
    }
}

/// The message that tells `target` the drag left it.
pub open spec fn leave_message(atoms: DndAtoms, this_window: u32, target: u32) -> ClientMessage {
    ClientMessage { window: target, message_type: atoms.dnd_leave, data: (this_window, 0, 0, 0, 0) }
}

/// Whether `r` is the answer of the handler `h` to the request `req`: the
/// `file://` URI of the held path, when the request asks this window's drag
/// selection as a URI list; a refusal otherwise.
pub open spec fn answers(
    h: DragHandler,
    atoms: DndAtoms,
    this_window: u32,
    req: SelectionRequest,
    r: SelectionReply,
) -> bool {
    &&& r.requestor == req.requestor
    &&& r.selection == req.selection
    &&& r.target == req.target
    &&& r.time == req.time
    &&& r.format == atoms.dnd_uri_list
    &&& match h.data {
        Some(Data::Filepath(p)) if req.owner == this_window && req.selection
            == atoms.dnd_selection && req.target == atoms.dnd_uri_list => {
            &&& r.property == if req.property == NONE {
                req.selection
            } else {
                req.property
            }
            &&& r.bytes@ == file_uri(p@)
        },
        _ => r.property == NONE && r.bytes@.len() == 0,
    }
}

/// The handler and the messages sent after a pointer sample at `position`
/// over the peer `target`.
pub open spec fn motion_step(
    h: DragHandler,
    atoms: DndAtoms,
    this_window: u32,
    target: u32,
    position: (u32, u32),
) -> (DragHandler, Seq<ClientMessage>) {
    let entered: Seq<ClientMessage> = if h.target_window != Some(target) {
        seq![enter_message(atoms, this_window, target)]
    } else {
        seq![]
    };
    if !h.waiting_for_status {
        (
            DragHandler {
                target_window: Some(target),
                position,
                waiting_for_status: true,
                deferred_position_message: false,
                ..h
            },
            entered.push(position_message(atoms, this_window, target, position)),
        )
    } else {
        (
            DragHandler {
                target_window: Some(target),
                position,
                deferred_position_message: true,
                ..h
            },
            entered,
        )
    }
}

/// The handler and the message sent after a status reply whose flags word
/// is `flags`. Replies that arrive when no drag is in progress are ignored.
pub open spec fn status_step(h: DragHandler, atoms: DndAtoms, this_window: u32, flags: u32) -> (
    DragHandler,
    Option<ClientMessage>,
) {
    if !h.active {
        (h, None)
    } else {
        let accept = flags & 1u32 == 1u32;
        match h.target_window {
            Some(target) if h.deferred_position_message => (
                DragHandler {
                    accept,
                    waiting_for_status: true,
                    deferred_position_message: false,
                    ..h
                },
                Some(position_message(atoms, this_window, target, h.position)),
            ),
            _ => (
                DragHandler {
                    accept,
                    waiting_for_status: false,
                    deferred_position_message: false,
                    ..h
                },
                None,
            ),
        }
    }
}

/// The `file://` URI of `path`, as bytes.
pub fn uri_bytes(path: &String) -> (r: Vec<u8>)
    ensures
        r@ == file_uri(path@),
{
    let mut out: Vec<u8> = vec![102u8, 105u8, 108u8, 101u8, 58u8, 47u8, 47u8];
    let tail: &[u8] = path.as_str().as_bytes();
    let mut i: usize = 0;
    assert(out@ =~= file_scheme());
    while i < tail.len()
        invariant
            0 <= i <= tail@.len(),
            tail@ == vstd::utf8::encode_utf8(path@),
            out@ =~= file_scheme() + tail@.take(i as int),
        decreases tail@.len() - i,
    {
        out.push(tail[i]);
        i = i + 1;
        assert(tail@.take(i as int) =~= tail@.take(i - 1 as int).push(tail@[i - 1]));
    }
    assert(tail@.take(i as int) =~= tail@);
    out
}

impl DragHandler {
    /// A handler with no drag in progress.
    pub fn new() -> (r: DragHandler)
        ensures
            !r.active,
            !r.accept,
            r.position == (0u32, 0u32),
            r.data.is_none(),
            !r.waiting_for_status,
            !r.deferred_position_message,
            r.target_window.is_none(),
    {
        DragHandler {
            data: None,
            active: false,
            accept: false,
            waiting_for_status: false,
            deferred_position_message: false,
            target_window: None,
            position: (0, 0),
        }
    }

    /// Starts dragging `data`: no peer has been entered yet and no query is
    /// outstanding.
    pub fn activate(&mut self, data: Data)
        ensures
            final(self).data == Some(data),
            final(self).active,
            final(self).accept,
            !final(self).waiting_for_status,
            !final(self).deferred_position_message,
            final(self).target_window.is_none(),
            final(self).position == old(self).position,
    {
        self.data = Some(data);
        self.active = true;
        self.accept = true;
        self.waiting_for_status = false;
        self.deferred_position_message = false;
        self.target_window = None;
    }

    /// Whether a drag is in progress.
    pub fn is_active(&self) -> (r: bool)
        ensures
            r == self.active,
    {
        self.active
    }

    /// Whether the peer under the pointer would accept a drop.
    pub fn will_accept(&self) -> (r: bool)
        ensures
            r == self.accept,
    {
        self.accept
    }

    /// How to advertise the drag: `this_window` owns the drag selection and
    /// offers the URI-list type.
    pub fn start(&self, atoms: &DndAtoms, this_window: u32) -> (r: SelectionClaim)
        ensures
            r == (SelectionClaim {
                window: this_window,
                selection: atoms.dnd_selection,
                type_list_property: atoms.dnd_type_list,
                offered_type: atoms.dnd_uri_list,
            }),
    {
        SelectionClaim {
            window: this_window,
            selection: atoms.dnd_selection,
            type_list_property: atoms.dnd_type_list,
            offered_type: atoms.dnd_uri_list,
        }
    }

    /// Handles a pointer sample at (`x`, `y`) over the peer `target` (the
    /// deepest window under the pointer). Enters a new peer before anything
    /// else; sends a position query unless one is outstanding, in which case
    /// the sample is kept and sent when the reply comes.
    pub fn motion(&mut self, atoms: &DndAtoms, this_window: u32, target: u32, x: u32, y: u32) -> (r:
        Vec<ClientMessage>)
        ensures
            (*final(self), r@) == motion_step(*old(self), *atoms, this_window, target, (x, y)),
    {
        let mut out: Vec<ClientMessage> = Vec::new();
        if self.target_window != Some(target) {
            self.target_window = Some(target);
            out.push(
                ClientMessage {
                    window: target,
                    message_type: atoms.dnd_enter,
                    data: (this_window, PROTOCOL_VERSION << 24u32, atoms.dnd_uri_list, 0, 0),
                },
            );
        }
        self.position = (x, y);
        if !self.waiting_for_status {
            self.waiting_for_status = true;
            self.deferred_position_message = false;
            out.push(
                ClientMessage {
                    window: target,
                    message_type: atoms.dnd_position,
                    data: (this_window, 0, (x << 16u32) | y, MESSAGE_TIME, atoms.dnd_action_copy),
                },
            );
        } else {
            self.deferred_position_message = true;
        }
        proof {
            let ghost expected = motion_step(*old(self), *atoms, this_window, target, (x, y));
            assert(out@ =~= expected.1);
        }
        out
    }

    /// Handles a status reply whose second data word is `flags`: records
    /// whether the peer accepts, and sends the pointer sample that was kept
    /// while the query was outstanding, if any.
    pub fn handle_status(&mut self, atoms: &DndAtoms, this_window: u32, flags: u32) -> (r: Option<
        ClientMessage,
    >)
        ensures
            (*final(self), r) == status_step(*old(self), *atoms, this_window, flags),
    {
        if !self.active {
            return None;
        }
        self.accept = flags & 1u32 == 1u32;
        match self.target_window {
            Some(target) if self.deferred_position_message => {
                self.waiting_for_status = true;
                self.deferred_position_message = false;
                let (x, y) = self.position;
                Some(
                    ClientMessage {
                        window: target,
                        message_type: atoms.dnd_position,
                        data: (
                            this_window,
                            0,
                            (x << 16u32) | y,
                            MESSAGE_TIME,
                            atoms.dnd_action_copy,
                        ),
                    },
                )
            },
            _ => {
                self.waiting_for_status = false;
                self.deferred_position_message = false;
                None
            },
        }
    }

    /// Answers a peer's request for the payload. While a path is held and the
    /// request asks this window's drag selection as a URI list, the reply
    /// carries the path's `file://` URI; any other request is refused.
    pub fn selection_requst(&self, atoms: &DndAtoms, this_window: u32, req: &SelectionRequest) -> (r:
        SelectionReply)
        ensures
            answers(*self, *atoms, this_window, *req, r),
    {
        match &self.data {
            Some(Data::Filepath(p)) => {
                if req.owner == this_window && req.selection == atoms.dnd_selection && req.target
                    == atoms.dnd_uri_list {
                    let property = if req.property == NONE {
                        req.selection
                    } else {
                        req.property
                    };
                    let bytes = uri_bytes(p);
                    return SelectionReply {
                        requestor: req.requestor,
                        selection: req.selection,
                        target: req.target,
                        time: req.time,
                        property,
                        format: atoms.dnd_uri_list,
                        bytes,
                    };
                }
            },
            None => {},
        }
        SelectionReply {
            requestor: req.requestor,
            selection: req.selection,
            target: req.target,
            time: req.time,
            property: NONE,
            format: atoms.dnd_uri_list,
            bytes: Vec::new(),
        }
    }

    /// Ends the drag with the pointer released. Over a peer that accepts, the
    /// drag stops and the peer is told to drop; the payload is kept so that
    /// the peer can still fetch it. Otherwise the drag is cancelled.
    pub fn do_drop(&mut self, atoms: &DndAtoms, this_window: u32) -> (r: Option<ClientMessage>)
        ensures
            !final(self).active,
            final(self).target_window == old(self).target_window,
            final(self).accept == old(self).accept,
            final(self).waiting_for_status == old(self).waiting_for_status,
            final(self).deferred_position_message == old(self).deferred_position_message,
            final(self).position == old(self).position,
            final(self).data == if old(self).accept {
                old(self).data
            } else {
                None
            },
            r == match old(self).target_window {
                Some(t) => Some(
                    if old(self).accept {
                        drop_message(*atoms, this_window, t)
                    } else {
                        leave_message(*atoms, this_window, t)
                    },
                ),
                None => None,
            },
    {
        if !self.accept {
            return self.cancel(atoms, this_window);
        }
        self.active = false;
        match self.target_window {
            Some(target) => Some(
                ClientMessage {
                    window: target,
                    message_type: atoms.dnd_drop,
                    data: (this_window, 0, MESSAGE_TIME, 0, 0),
                },
            ),
            None => None,
        }
    }

    /// Abandons the drag at once: the payload is dropped and the peer, if
    /// any, is told that the drag left. No reply is awaited.
    pub fn cancel(&mut self, atoms: &DndAtoms, this_window: u32) -> (r: Option<ClientMessage>)
        ensures
            !final(self).active,
            final(self).data.is_none(),
            final(self).target_window == old(self).target_window,
            final(self).accept == old(self).accept,
            final(self).waiting_for_status == old(self).waiting_for_status,
            final(self).deferred_position_message == old(self).deferred_position_message,
            final(self).position == old(self).position,
            r == match old(self).target_window {
                Some(t) => Some(leave_message(*atoms, this_window, t)),
                None => None,
            },
    {
        self.active = false;
        self.data = None;
        match self.target_window {
            Some(target) => Some(
                ClientMessage {
                    window: target,
                    message_type: atoms.dnd_leave,
                    data: (this_window, 0, 0, 0, 0),
                },
            ),
            None => None,
        }
    }
}


/// An event that drives the outbound side of a drag.
#[derive(Debug, Clone, Copy, PartialEq, Eq, Structural)]
pub enum SourceInput {
    /// A pointer sample over the peer `target`.
    Motion { target: u32, x: u32, y: u32 },
    /// A status reply with the given flags word.
    Status { flags: u32 },
}

/// How many of `msgs` are position queries.
pub open spec fn positions_in(atoms: DndAtoms, msgs: Seq<ClientMessage>) -> nat
    decreases msgs.len(),
{
    if msgs.len() == 0 {
        0
    } else {
        (if msgs[0].message_type == atoms.dnd_position {
            1nat
        } else {
            0nat
        }) + positions_in(atoms, msgs.drop_first())
    }
}

/// Runs `inputs` through the handler `h`, counting the position queries in
/// flight: `in_flight` before the first input; a query sent adds one, and a
/// status reply taken during a drag answers every query sent before it.
pub open spec fn source_run(
    h: DragHandler,
    in_flight: nat,
    atoms: DndAtoms,
    this_window: u32,
    inputs: Seq<SourceInput>,
) -> (DragHandler, nat)
    decreases inputs.len(),
{
    if inputs.len() == 0 {
        (h, in_flight)
    } else {
        match inputs[0] {
            SourceInput::Motion { target, x, y } => {
                let (h2, out) = motion_step(h, atoms, this_window, target, (x, y));
                source_run(
                    h2,
                    in_flight + positions_in(atoms, out),
                    atoms,
                    this_window,
                    inputs.drop_first(),
                )
            },
            SourceInput::Status { flags } => {
                let (h2, out) = status_step(h, atoms, this_window, flags);
                let sent: nat = match out {
                    Some(m) => positions_in(atoms, seq![m]),
                    None => 0,
                };
                source_run(
                    h2,
                    if h.active {
                        sent
                    } else {
                        in_flight
                    },
                    atoms,
                    this_window,
                    inputs.drop_first(),
                )
            },
        }
    }
}

proof fn lemma_positions_one(atoms: DndAtoms, m: ClientMessage)
    ensures
        positions_in(atoms, seq![m]) == (if m.message_type == atoms.dnd_position {
            1nat
        } else {
            0nat
        }),
{
    assert(seq![m].drop_first() =~= Seq::<ClientMessage>::empty());
    assert(positions_in(atoms, Seq::<ClientMessage>::empty()) == 0);
    assert(seq![m][0] == m);
}

proof fn lemma_positions_two(atoms: DndAtoms, a: ClientMessage, b: ClientMessage)
    ensures
        positions_in(atoms, seq![a].push(b)) == positions_in(atoms, seq![a]) + positions_in(
            atoms,
            seq![b],
        ),
{
    assert(seq![a].push(b).drop_first() =~= seq![b]);
    lemma_positions_one(atoms, a);
    lemma_positions_one(atoms, b);
}

proof fn lemma_in_flight_tracks_waiting(
    h: DragHandler,
    in_flight: nat,
    atoms: DndAtoms,
    this_window: u32,
    inputs: Seq<SourceInput>,
)
    requires
        atoms.dnd_enter != atoms.dnd_position,
        in_flight == (if h.waiting_for_status {
            1nat
        } else {
            0nat
        }),
        h.deferred_position_message ==> h.waiting_for_status,
    ensures
        source_run(h, in_flight, atoms, this_window, inputs).1 <= 1,
    decreases inputs.len(),
{
    if inputs.len() > 0 {
        match inputs[0] {
            SourceInput::Motion { target, x, y } => {
                let (h2, out) = motion_step(h, atoms, this_window, target, (x, y));
                let enter = enter_message(atoms, this_window, target);
                let pos = position_message(atoms, this_window, target, (x, y));
                lemma_positions_one(atoms, enter);
                lemma_positions_one(atoms, pos);
                lemma_positions_two(atoms, enter, pos);
                assert(Seq::<ClientMessage>::empty().push(pos) =~= seq![pos]);
                assert(positions_in(atoms, Seq::<ClientMessage>::empty()) == 0);
                lemma_in_flight_tracks_waiting(
                    h2,
                    in_flight + positions_in(atoms, out),
                    atoms,
                    this_window,
                    inputs.drop_first(),
                );
            },
            SourceInput::Status { flags } => {
                let (h2, out) = status_step(h, atoms, this_window, flags);
                let pos = position_message(atoms, this_window, 0, h.position);
                match out {
                    Some(m) => lemma_positions_one(atoms, m),
                    None => {},
                }
                let sent: nat = match out {
                    Some(m) => positions_in(atoms, seq![m]),
                    None => 0,
                };
                lemma_in_flight_tracks_waiting(
                    h2,
                    if h.active {
                        sent
                    } else {
                        in_flight
                    },
                    atoms,
                    this_window,
                    inputs.drop_first(),
                );
            },
        }
    }
}

/// However pointer samples and status replies interleave, a drag that starts
/// with no query outstanding never has more than one position query in
/// flight.
pub proof fn lemma_one_position_in_flight(
    h: DragHandler,
    atoms: DndAtoms,
    this_window: u32,
    inputs: Seq<SourceInput>,
)
    requires
        atoms.dnd_enter != atoms.dnd_position,
        !h.waiting_for_status,
        !h.deferred_position_message,
    ensures
        source_run(h, 0, atoms, this_window, inputs).1 <= 1,
{
    lemma_in_flight_tracks_waiting(h, 0, atoms, this_window, inputs);
}

} // verus!

use vstd::prelude::*;

use crate::event::{Data, WindowEvent};
use crate::protocol::{ClientMessage, DndAtoms, NONE, PROTOCOL_VERSION};
use crate::uri_list::DndDataParseError;

verus! {

/// The answer a drop target gives a peer.
#[derive(Debug, Clone, Copy, PartialEq, Eq, Structural)]
pub enum DndState {
    Accepted,
    Rejected,
}

/// A request to the platform to convert the peer's drag selection into the
/// URI-list type and store it in `property` of `requestor`.
#[derive(Debug, Clone, Copy, PartialEq, Eq, Structural)]
pub struct FetchRequest {
    pub requestor: u32,
    pub selection: u32,
    pub target: u32,
    pub property: u32,
    pub time: u32,
}

/// What a target does about one position message: the status reply to send,
/// the payload fetch to start, if any, and the root coordinates at which to
/// report the pointer (followed by a `Dragging` event) while it accepts.
#[derive(Debug, Clone, Copy, PartialEq, Eq)]
pub struct PositionReply {
    pub status: ClientMessage,
    pub fetch: Option<FetchRequest>,
    pub hover: Option<(u32, u32)>,
}

/// The inbound side of a drag: what the peer offered and what became of the
/// payload fetch.
#[derive(Debug)]
pub struct DropHandler {
    /// The protocol version the peer declared.
    pub version: Option<u32>,
    /// The types the peer offers.
    pub type_list: Option<Vec<u32>>,
    /// The peer, once a position message of an acceptable drag came.
    pub source_window: Option<u32>,
    /// Whether the payload has been asked for in this sequence.
    pub fetch_requested: bool,
    /// The payload, once the fetch came back.
    pub result: Option<Result<Vec<String>, DndDataParseError>>,
}

/// The reply that tells `peer` whether this window would take the drop.
pub open spec fn status_message(atoms: DndAtoms, this_window: u32, peer: u32, state: DndState) -> ClientMessage {
    ClientMessage {
        window: peer,
        message_type: atoms.dnd_status,
        data: match state {
            DndState::Accepted => (this_window, 1, 0, 0, atoms.dnd_action_private),
            DndState::Rejected => (this_window, 0, 0, 0, NONE),
        },
    }
}

/// The message that tells `peer` the drop is over, and whether it was taken.
pub open spec fn finished_message(atoms: DndAtoms, this_window: u32, peer: u32, state: DndState) -> ClientMessage {
    ClientMessage {
        window: peer,
        message_type: atoms.dnd_finished,
        data: match state {
            DndState::Accepted => (this_window, 1, atoms.dnd_action_private, 0, 0),
            DndState::Rejected => (this_window, 0, NONE, 0, 0),
        },
    }
}

/// Whether the offered types include the one payload kind this library takes.
pub open spec fn offers_uri_list(h: DropHandler, atoms: DndAtoms) -> bool {
    match h.type_list {
        Some(types) => types@.contains(atoms.dnd_uri_list),
        None => false,
    }
}

/// The paths of a successful, non-empty fetch.
pub open spec fn dropped_paths(result: Option<Result<Vec<String>, DndDataParseError>>) -> Option<
    Seq<String>,
> {
    match result {
        Some(Ok(v)) if v@.len() > 0 => Some(v@),
        _ => None,
    }
}

/// The events a drop yields: one `Drop` per path of a successful, non-empty
/// fetch; a single `DragLeave` otherwise.
pub open spec fn drop_events(result: Option<Result<Vec<String>, DndDataParseError>>) -> Seq<
    WindowEvent,
> {
    match dropped_paths(result) {
        Some(ps) => ps.map_values(|p: String| WindowEvent::Drop(Data::Filepath(p))),
        None => seq![WindowEvent::DragLeave],
    }
}

/// The `DragEnter` events that announce the paths `ps`.
pub open spec fn enter_events(ps: Seq<String>) -> Seq<WindowEvent> {
    ps.map_values(|p: String| WindowEvent::DragEnter(Data::Filepath(p)))
}

/// Whether `h` holds nothing of a drag sequence.
pub open spec fn is_idle(h: DropHandler) -> bool {
    &&& h.version.is_none()
    &&& h.type_list.is_none()
    &&& h.source_window.is_none()
    &&& !h.fetch_requested
    &&& h.result.is_none()
}

/// The paths as events, one per path.
fn path_events(paths: &Vec<String>, enter: bool) -> (r: Vec<WindowEvent>)
    ensures
        enter ==> r@ == enter_events(paths@),
        !enter ==> r@ == paths@.map_values(|p: String| WindowEvent::Drop(Data::Filepath(p))),
{
    let mut out: Vec<WindowEvent> = Vec::new();
    let mut i: usize = 0;
    while i < paths.len()
        invariant
            0 <= i <= paths@.len(),
            enter ==> out@ =~= enter_events(paths@.take(i as int)),
            !enter ==> out@ =~= paths@.take(i as int).map_values(
                |p: String| WindowEvent::Drop(Data::Filepath(p)),
            ),
        decreases paths@.len() - i,
    {
        let data = Data::Filepath(paths[i].clone());
        if enter {
            out.push(WindowEvent::DragEnter(data));
        } else {
            out.push(WindowEvent::Drop(data));
        }
        i = i + 1;
        assert(paths@.take(i as int) =~= paths@.take(i - 1 as int).push(paths@[i - 1]));
    }
    assert(paths@.take(i as int) =~= paths@);
    out
}

/// Whether `types` holds `t`.
fn contains_type(types: &Vec<u32>, t: u32) -> (r: bool)
    ensures
        r == types@.contains(t),
{
    let mut i: usize = 0;
    while i < types.len()
        invariant
            0 <= i <= types@.len(),
            forall|j: int| 0 <= j < i ==> types@[j] != t,
        decreases types@.len() - i,
    {
        if types[i] == t {
            return true;
        }
        i = i + 1;
    }
    false
}

impl DropHandler {
    /// A handler with no drag over the window.
    pub fn new() -> (r: DropHandler)
        ensures
            is_idle(r),
    {
        DropHandler {
            version: None,
            type_list: None,
            source_window: None,
            fetch_requested: false,
            result: None,
        }
    }

    /// Forgets the current drag sequence.
    pub fn reset(&mut self)
        ensures
            is_idle(*final(self)),
    {
        self.version = None;
        self.type_list = None;
        self.source_window = None;
        self.fetch_requested = false;
        self.result = None;
    }

    /// The status reply to `peer`.
    pub fn send_status(&self, atoms: &DndAtoms, this_window: u32, peer: u32, state: DndState) -> (r:
        ClientMessage)
        ensures
            r == status_message(*atoms, this_window, peer, state),
    {
        let data = match state {
            DndState::Accepted => (this_window, 1, 0, 0, atoms.dnd_action_private),
            DndState::Rejected => (this_window, 0, 0, 0, NONE),
        };
        ClientMessage { window: peer, message_type: atoms.dnd_status, data }
    }

    /// The message telling `peer` that the drop is finished.
    pub fn send_finished(&self, atoms: &DndAtoms, this_window: u32, peer: u32, state: DndState) -> (r:
        ClientMessage)
        ensures
            r == finished_message(*atoms, this_window, peer, state),
    {
        let data = match state {
            DndState::Accepted => (this_window, 1, atoms.dnd_action_private, 0, 0),
            DndState::Rejected => (this_window, 0, NONE, 0, 0),
        };
        ClientMessage { window: peer, message_type: atoms.dnd_finished, data }
    }

    /// Starts a drag sequence from an enter message whose flags word is
    /// `flags` and whose last three words are `types`. The version is the
    /// top byte of the flags; when the lowest bit is clear the three words are
    /// the whole type list, else the list must be read from the peer's
    /// property, and the peer is returned.
    pub fn enter(&mut self, source: u32, flags: u32, types: (u32, u32, u32)) -> (r: Option<u32>)
        ensures
            final(self).version == Some(flags >> 24u32),
            final(self).source_window.is_none(),
            !final(self).fetch_requested,
            final(self).result.is_none(),
            flags & 1u32 == 0 ==> r.is_none() && (final(self).type_list matches Some(l) && l@
                == seq![types.0, types.1, types.2]),
            flags & 1u32 != 0 ==> r == Some(source) && final(self).type_list.is_none(),
    {
        self.reset();
        self.version = Some(flags >> 24u32);
        if flags & 1u32 == 0 {
            self.type_list = Some(vec![types.0, types.1, types.2]);
            None
        } else {
            Some(source)
        }
    }

    /// Records the type list read from the peer's property, if it could be
    /// read.
    pub fn set_type_list(&mut self, types: Option<Vec<u32>>)
        ensures
            final(self).type_list == types,
            final(self).version == old(self).version,
            final(self).source_window == old(self).source_window,
            final(self).fetch_requested == old(self).fetch_requested,
            final(self).result == old(self).result,
    {
        self.type_list = types;
    }

    /// Handles a position message from `source` whose pointer word is
    /// `packed_xy` and whose time stamp is `time`; `target_valid` is what the
    /// embedder's predicate says of the element under the pointer.
    ///
    /// A drag that does not offer a URI list is rejected and forgotten. One
    /// that does is accepted exactly when the target is valid; while it is
    /// accepted, the payload is asked for once per sequence and the pointer
    /// is reported.
    pub fn position(
        &mut self,
        atoms: &DndAtoms,
        this_window: u32,
        source: u32,
        packed_xy: u32,
        time: u32,
        target_valid: bool,
    ) -> (r: PositionReply)
        ensures
            !offers_uri_list(*old(self), *atoms) ==> {
                &&& is_idle(*final(self))
                &&& r.status == status_message(*atoms, this_window, source, DndState::Rejected)
                &&& r.fetch.is_none()
                &&& r.hover.is_none()
            },
            offers_uri_list(*old(self), *atoms) ==> {
                &&& final(self).source_window == Some(source)
                &&& final(self).version == old(self).version
                &&& final(self).type_list == old(self).type_list
                &&& final(self).result == old(self).result
                &&& r.status == status_message(
                    *atoms,
                    this_window,
                    source,
                    if target_valid {
                        DndState::Accepted
                    } else {
                        DndState::Rejected
                    },
                )
                &&& r.hover == if target_valid {
                    Some((packed_xy >> 16u32, packed_xy & 0xFFFFu32))
                } else {
                    None::<(u32, u32)>
                }
                &&& final(self).fetch_requested == (old(self).fetch_requested || target_valid)
                &&& r.fetch == if target_valid && !old(self).fetch_requested {
                    Some(
                        FetchRequest {
                            requestor: this_window,
                            selection: atoms.dnd_selection,
                            target: atoms.dnd_uri_list,
                            property: atoms.dnd_baseview_transfer,
                            time: if old(self).version.unwrap_or(PROTOCOL_VERSION) >= 1 {
                                time
                            } else {
                                NONE
                            },
                        },
                    )
                } else {
                    None::<FetchRequest>
                }
            },
    {
        let offered = match &self.type_list {
            Some(types) => contains_type(types, atoms.dnd_uri_list),
            None => false,
        };
        if !offered {
            let status = self.send_status(atoms, this_window, source, DndState::Rejected);
            self.reset();
            return PositionReply { status, fetch: None, hover: None };
        }
        self.source_window = Some(source);
        let version = match self.version {
            Some(v) => v,
            None => PROTOCOL_VERSION,
        };
        let fetch = if target_valid && !self.fetch_requested {
            self.fetch_requested = true;
            Some(
                FetchRequest {
                    requestor: this_window,
                    selection: atoms.dnd_selection,
                    target: atoms.dnd_uri_list,
                    property: atoms.dnd_baseview_transfer,
                    time: if version >= 1 {
                        time
                    } else {
                        NONE
                    },
                },
            )
        } else {
            None
        };
        let state = if target_valid {
            DndState::Accepted
        } else {
            DndState::Rejected
        };
        let status = self.send_status(atoms, this_window, source, state);
        let hover = if target_valid {
            Some((packed_xy >> 16u32, packed_xy & 0xFFFFu32))
        } else {
            None
        };
        PositionReply { status, fetch, hover }
    }

    /// Takes the outcome of the payload fetch. It is kept, and its paths
    /// announced with `DragEnter` events, only while this sequence awaits
    /// it; an outcome for an abandoned or already answered request is
    /// discarded.
    pub fn fetch_completed(&mut self, outcome: Result<Vec<String>, DndDataParseError>) -> (r: Vec<
        WindowEvent,
    >)
        ensures
            old(self).fetch_requested && old(self).result.is_none() ==> {
                &&& final(self).result == Some(outcome)
                &&& r@ == match outcome {
                    Ok(v) => enter_events(v@),
                    Err(_) => Seq::<WindowEvent>::empty(),
                }
            },
            !(old(self).fetch_requested && old(self).result.is_none()) ==> {
                &&& final(self).result == old(self).result
                &&& r@.len() == 0
            },
            final(self).version == old(self).version,
            final(self).type_list == old(self).type_list,
            final(self).source_window == old(self).source_window,
            final(self).fetch_requested == old(self).fetch_requested,
    {
        if !(self.fetch_requested && self.result.is_none()) {
            return Vec::new();
        }
        let events = match &outcome {
            Ok(paths) => path_events(paths, true),
            Err(_) => Vec::new(),
        };
        self.result = Some(outcome);
        events
    }

    /// Handles a drop message whose first word names `sender`. A successful,
    /// non-empty fetch is delivered as one `Drop` event per path and
    /// answered as accepted; anything else becomes one `DragLeave` and is
    /// answered as rejected. The answer goes to the recorded peer, or to
    /// `sender` when none was recorded. The sequence then ends.
    pub fn drop(&mut self, atoms: &DndAtoms, this_window: u32, sender: u32) -> (r: (
        Vec<WindowEvent>,
        ClientMessage,
    ))
        ensures
            r.0@ == drop_events(old(self).result),
            r.1 == finished_message(
                *atoms,
                this_window,
                old(self).source_window.unwrap_or(sender),
                if dropped_paths(old(self).result).is_some() {
                    DndState::Accepted
                } else {
                    DndState::Rejected
                },
            ),
            is_idle(*final(self)),
    {
        let peer = match self.source_window {
            Some(s) => s,
            None => sender,
        };
        let (events, state) = match &self.result {
            Some(Ok(paths)) if paths.len() > 0 => (path_events(paths, false), DndState::Accepted),
            _ => (vec![WindowEvent::DragLeave], DndState::Rejected),
        };
        let finished = self.send_finished(atoms, this_window, peer, state);
        self.reset();
        (events, finished)
    }

    /// Handles a leave message: the sequence ends at once, whatever fetch is
    /// in flight, and the handler is told that the drag left.
    pub fn leave(&mut self) -> (r: WindowEvent)
        ensures
            r == WindowEvent::DragLeave,
            is_idle(*final(self)),
    {
        self.reset();
        WindowEvent::DragLeave
    }
}

/// Whether the first `n` paths have a resolution in `resolved`.
pub open spec fn resolved_up_to(n: int, resolved: Seq<Option<String>>) -> bool {
    forall|i: int| 0 <= i < n ==> i < resolved.len() && (#[trigger] resolved[i]).is_some()
}

/// The resolutions of the first `n` paths.
pub open spec fn resolutions(n: int, resolved: Seq<Option<String>>) -> Seq<String> {
    Seq::new(n as nat, |i: int| resolved[i].unwrap())
}

/// Whether `r` is what resolving the paths `v` with `resolved` gives: the
/// resolutions when every path has one, else the failure of the first path
/// without one.
pub open spec fn resolves_to(
    v: Seq<String>,
    resolved: Seq<Option<String>>,
    r: Result<Vec<String>, DndDataParseError>,
) -> bool {
    ||| resolved_up_to(v.len() as int, resolved) && (r matches Ok(out) && out@ == resolutions(
        v.len() as int,
        resolved,
    ))
    ||| exists|k: int|
        0 <= k < v.len() && resolved_up_to(k, resolved) && !resolved_up_to(k + 1, resolved) && r
            == Err::<Vec<String>, DndDataParseError>(
            DndDataParseError::UnresolvablePath(#[trigger] v[k]),
        )
}

fn resolve_each(paths: &Vec<String>, resolved: &Vec<Option<String>>) -> (r: Result<
    Vec<String>,
    DndDataParseError,
>)
    ensures
        resolves_to(paths@, resolved@, r),
{
    let mut out: Vec<String> = Vec::new();
    let mut i: usize = 0;
    while i < paths.len()
        invariant
            0 <= i <= paths@.len(),
            resolved_up_to(i as int, resolved@),
            out@ == resolutions(i as int, resolved@),
        decreases paths@.len() - i,
    {
        let found = if i < resolved.len() {
            match &resolved[i] {
                Some(p) => Some(p.clone()),
                None => None,
            }
        } else {
            None
        };
        match found {
            Some(p) => {
                out.push(p);
                i = i + 1;
                assert(out@ =~= resolutions(i as int, resolved@));
            },
            None => {
                let r = Err(DndDataParseError::UnresolvablePath(paths[i].clone()));
                proof {
                    assert(i >= resolved@.len() || resolved@[i as int].is_none());
                    if resolved_up_to(i + 1, resolved@) {
                        assert(i < resolved@.len() && resolved@[i as int].is_some());
                    }
                    assert(r == Err::<Vec<String>, DndDataParseError>(
                        DndDataParseError::UnresolvablePath(paths@[i as int]),
                    ));
                }
                return r;
            },
        }
    }
    Ok(out)
}

/// The fetched paths after the platform resolved each of them to a canonical
/// path: `resolved[i]` is the resolution of the `i`-th path, `None` where it
/// failed. The first path without a resolution fails the whole payload.
pub fn resolve_paths(
    parsed: Result<Vec<String>, DndDataParseError>,
    resolved: Vec<Option<String>>,
) -> (r: Result<Vec<String>, DndDataParseError>)
    ensures
        parsed is Err ==> r == parsed,
        parsed matches Ok(v) ==> resolves_to(v@, resolved@, r),
{
    match parsed {
        Ok(v) => resolve_each(&v, &resolved),
        Err(e) => Err(e),
    }
}

} // verus!

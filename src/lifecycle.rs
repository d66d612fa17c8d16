use vstd::prelude::*;

use std::sync::atomic::{AtomicBool, Ordering};
use std::sync::Arc;

use crate::event::WindowEvent;

verus! {

/// The embedder's half of an open window. Closing it, or dropping it, asks
/// the window to close; the window side notices at the end of its next loop
/// iteration.
#[derive(Debug)]
pub struct WindowHandle {
    attached: bool,
    close_requested: Arc<AtomicBool>,
    is_open: Arc<AtomicBool>,
}

/// The window's half of the pair: it reads the owner's close request and
/// marks the window closed when it goes away.
#[derive(Debug)]
pub struct ParentHandle {
    close_requested: Arc<AtomicBool>,
    is_open: Arc<AtomicBool>,
}

/// Relies on `AtomicBool::store`: with relaxed ordering it neither panics nor
/// blocks, so it may run while a handle is dropped.
#[verifier::external_body]
fn set_flag(flag: &AtomicBool, value: bool)
    opens_invariants none
    no_unwind
{
    flag.store(value, Ordering::Relaxed)
}

impl WindowHandle {
    /// Whether this handle can still ask the window to close.
    pub closed spec fn is_attached(&self) -> bool {
        self.attached
    }

    /// Asks the window to close. Only the first call does so; the result
    /// says whether this call was it.
    pub fn close(&mut self) -> (r: bool)
        ensures
            r == old(self).is_attached(),
            !final(self).is_attached(),
    {
        if self.attached {
            self.attached = false;
            set_flag(&self.close_requested, true);
            true
        } else {
            false
        }
    }

    /// Whether the window is still open, as its side last reported.
    pub fn is_open(&self) -> bool {
        self.is_open.load(Ordering::Relaxed)
    }
}

impl Drop for WindowHandle {
    fn drop(&mut self)
        opens_invariants none
        no_unwind
    {
        if self.attached {
            self.attached = false;
            set_flag(&self.close_requested, true);
        }
    }
}

impl ParentHandle {
    /// A linked pair: the window's half and the embedder's attached handle.
    pub fn new() -> (r: (ParentHandle, WindowHandle))
        ensures
            r.1.is_attached(),
    {
        let close_requested = Arc::new(AtomicBool::new(false));
        let is_open = Arc::new(AtomicBool::new(true));
        let handle = WindowHandle {
            attached: true,
            close_requested: close_requested.clone(),
            is_open: is_open.clone(),
        };
        (ParentHandle { close_requested, is_open }, handle)
    }

    /// Whether the embedder has asked the window to close.
    pub fn parent_did_drop(&self) -> bool {
        self.close_requested.load(Ordering::Relaxed)
    }
}

impl Drop for ParentHandle {
    fn drop(&mut self)
        opens_invariants none
        no_unwind
    {
        set_flag(&self.is_open, false);
    }
}

/// Whether the window's loop keeps running and whether the user's handler
/// asked it to close.
#[derive(Debug, Clone, Copy, PartialEq, Eq, Structural)]
pub struct EventLoop {
    pub running: bool,
    pub close_requested: bool,
}

/// What happens to a window's loop.
#[derive(Debug, Clone, Copy, PartialEq, Eq, Structural)]
pub enum LoopInput {
    /// The handler ran, and asked to close or not.
    Callback { requests_close: bool },
    /// The window manager asked the window to close.
    WindowManagerClose,
    /// An iteration ended; the owner's close flag read as given.
    IterationEnd { parent_dropped: bool },
}

/// The loop and the event it emits after one input. Only the end of an
/// iteration or the window manager closes the window, and a stopped loop
/// emits nothing more.
pub open spec fn loop_step(s: EventLoop, input: LoopInput) -> (EventLoop, Option<WindowEvent>) {
    match input {
        LoopInput::Callback { requests_close } => (
            EventLoop { running: s.running, close_requested: s.close_requested || requests_close },
            None,
        ),
        LoopInput::WindowManagerClose => if s.running {
            (EventLoop { running: false, close_requested: s.close_requested }, Some(WindowEvent::WillClose))
        } else {
            (s, None)
        },
        LoopInput::IterationEnd { parent_dropped } => if s.running && (parent_dropped
            || s.close_requested) {
            (EventLoop { running: false, close_requested: false }, Some(WindowEvent::WillClose))
        } else {
            (s, None)
        },
    }
}

/// The loop after `inputs`, and how many `WillClose` events it emitted.
pub open spec fn loop_run(s: EventLoop, inputs: Seq<LoopInput>) -> (EventLoop, nat)
    decreases inputs.len(),
{
    if inputs.len() == 0 {
        (s, 0)
    } else {
        let (s2, e) = loop_step(s, inputs[0]);
        let (s3, n) = loop_run(s2, inputs.drop_first());
        (s3, n + if e is Some {
            1nat
        } else {
            0nat
        })
    }
}

impl EventLoop {
    /// A running loop with no close request.
    pub fn new() -> (r: EventLoop)
        ensures
            r.running,
            !r.close_requested,
    {
        EventLoop { running: true, close_requested: false }
    }

    /// Records the handler's request to close; it takes effect at the end of
    /// the iteration.
    pub fn request_close(&mut self)
        ensures
            *final(self) == loop_step(*old(self), LoopInput::Callback { requests_close: true }).0,
    {
        self.close_requested = true;
    }

    /// The window manager asked the window to close.
    pub fn handle_close_requested(&mut self) -> (r: Option<WindowEvent>)
        ensures
            (*final(self), r) == loop_step(*old(self), LoopInput::WindowManagerClose),
    {
        if self.running {
            self.running = false;
            Some(WindowEvent::WillClose)
        } else {
            None
        }
    }

    /// Ends an iteration: a close asked for by the owner (`parent_dropped`)
    /// or by the handler stops the loop with one `WillClose`.
    pub fn end_iteration(&mut self, parent_dropped: bool) -> (r: Option<WindowEvent>)
        ensures
            (*final(self), r) == loop_step(
                *old(self),
                LoopInput::IterationEnd { parent_dropped },
            ),
    {
        if self.running && (parent_dropped || self.close_requested) {
            self.running = false;
            self.close_requested = false;
            Some(WindowEvent::WillClose)
        } else {
            None
        }
    }
}

proof fn lemma_stopped_is_silent(s: EventLoop, inputs: Seq<LoopInput>)
    requires
        !s.running,
    ensures
        loop_run(s, inputs).1 == 0,
        !loop_run(s, inputs).0.running,
    decreases inputs.len(),
{
    if inputs.len() > 0 {
        lemma_stopped_is_silent(loop_step(s, inputs[0]).0, inputs.drop_first());
    }
}

/// A window's loop emits `WillClose` at most once, never from inside a
/// callback, and exactly once, ending the loop, when the owner's close flag
/// is seen at the end of an iteration: however the handler's callbacks fall
/// around that moment.
pub proof fn lemma_single_will_close(s: EventLoop, inputs: Seq<LoopInput>)
    ensures
        loop_run(s, inputs).1 <= 1,
        forall|c: bool| #[trigger] loop_step(s, LoopInput::Callback { requests_close: c }).1 is None,
        (s.running && exists|i: int|
            0 <= i < inputs.len() && #[trigger] inputs[i] == (LoopInput::IterationEnd {
                parent_dropped: true,
            })) ==> loop_run(s, inputs).1 == 1 && !loop_run(s, inputs).0.running,
    decreases inputs.len(),
{
    if inputs.len() > 0 {
        let (s2, e) = loop_step(s, inputs[0]);
        let rest = inputs.drop_first();
        lemma_single_will_close(s2, rest);
        if e is Some {
            lemma_stopped_is_silent(s2, rest);
        }
        if s.running && exists|i: int|
            0 <= i < inputs.len() && #[trigger] inputs[i] == (LoopInput::IterationEnd {
                parent_dropped: true,
            }) {
            let i = choose|i: int|
                0 <= i < inputs.len() && #[trigger] inputs[i] == (LoopInput::IterationEnd {
                    parent_dropped: true,
                });
            if i > 0 && e is None {
                assert(rest[i - 1] == inputs[i]);
            }
        }
    }
}

} // verus!

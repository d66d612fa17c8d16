use vstd::prelude::*;

use std::collections::VecDeque;

use crate::event::{Data, PhySize};
use crate::lifecycle::{loop_step, EventLoop, LoopInput};

verus! {

/// An operation asked for from inside a callback, run once the callback has
/// returned.
#[derive(Debug, Clone, PartialEq, Eq)]
pub enum WindowTask {
    /// Resize the window to the given physical size.
    Resize(PhySize),
    /// Start dragging the payload out of the window.
    Drag(Data),
}

/// A first-in, first-out queue of deferred tasks.
#[derive(Debug)]
pub struct TaskQueue {
    tasks: VecDeque<WindowTask>,
}

impl View for TaskQueue {
    type V = Seq<WindowTask>;

    closed spec fn view(&self) -> Seq<WindowTask> {
        self.tasks@
    }
}

impl TaskQueue {
    /// An empty queue.
    pub fn new() -> (r: TaskQueue)
        ensures
            r@ == Seq::<WindowTask>::empty(),
    {
        TaskQueue { tasks: VecDeque::new() }
    }

    /// Appends `task`; nothing runs now.
    pub fn push(&mut self, task: WindowTask)
        ensures
            final(self)@ == old(self)@.push(task),
    {
        self.tasks.push_back(task);
    }

    /// Takes the oldest task, if any.
    pub fn pop(&mut self) -> (r: Option<WindowTask>)
        ensures
            old(self)@.len() == 0 ==> r.is_none() && final(self)@ == old(self)@,
            old(self)@.len() > 0 ==> r == Some(old(self)@[0]) && final(self)@ == old(self)@.drop_first(),
    {
        self.tasks.pop_front()
    }

    /// How many tasks wait.
    pub fn len(&self) -> (r: usize)
        ensures
            r == self@.len(),
    {
        self.tasks.len()
    }

    /// Whether no task waits.
    pub fn is_empty(&self) -> (r: bool)
        ensures
            r == (self@.len() == 0),
    {
        self.tasks.len() == 0
    }
}

/// What the user's handler sees of its window while a callback runs. Every
/// operation is recorded for later instead of touching the window state the
/// loop is using.
#[derive(Debug)]
pub struct Window {
    pub tasks: TaskQueue,
    pub event_loop: EventLoop,
}

impl Window {
    /// The window of a loop that has just started.
    pub fn new() -> (r: Window)
        ensures
            r.tasks@ == Seq::<WindowTask>::empty(),
            r.event_loop.running,
            !r.event_loop.close_requested,
    {
        Window { tasks: TaskQueue::new(), event_loop: EventLoop::new() }
    }

    /// Asks the window to close at the end of the loop iteration.
    pub fn close(&mut self)
        ensures
            final(self).event_loop == loop_step(
                old(self).event_loop,
                LoopInput::Callback { requests_close: true },
            ).0,
            final(self).tasks@ == old(self).tasks@,
    {
        self.event_loop.request_close();
    }

    /// Asks for the window to be resized once the callback returns.
    pub fn resize(&mut self, size: PhySize)
        ensures
            final(self).tasks@ == old(self).tasks@.push(WindowTask::Resize(size)),
            final(self).event_loop == old(self).event_loop,
    {
        self.tasks.push(WindowTask::Resize(size));
    }

    /// Asks for a drag of `data` to start once the callback returns.
    pub fn start_drag(&mut self, data: Data)
        ensures
            final(self).tasks@ == old(self).tasks@.push(WindowTask::Drag(data)),
            final(self).event_loop == old(self).event_loop,
    {
        self.tasks.push(WindowTask::Drag(data));
    }
}

/// Starts dragging `data` out of `window` once the current callback returns.
pub fn start_drag(window: &mut Window, data: Data)
    ensures
        final(window).tasks@ == old(window).tasks@.push(WindowTask::Drag(data)),
        final(window).event_loop == old(window).event_loop,
{
    window.start_drag(data);
}

/// Paces animation frames at a fixed interval on a monotonic clock counted
/// in microseconds.
#[derive(Debug, Clone, Copy, PartialEq, Eq, Structural)]
pub struct FramePacer {
    pub interval: u64,
    pub last_frame: u64,
}

/// When the next frame is due.
pub open spec fn next_frame_at(p: FramePacer) -> u64 {
    if p.last_frame + p.interval > u64::MAX {
        u64::MAX
    } else {
        (p.last_frame + p.interval) as u64
    }
}

impl FramePacer {
    /// A pacer whose first frame is due one interval after `now`.
    pub fn new(interval: u64, now: u64) -> (r: FramePacer)
        ensures
            r.interval == interval,
            r.last_frame == now,
    {
        FramePacer { interval, last_frame: now }
    }

    /// When the next frame is due.
    pub fn next_frame(&self) -> (r: u64)
        ensures
            r == next_frame_at(*self),
    {
        self.last_frame.saturating_add(self.interval)
    }

    /// How long the loop may wait for messages before the next frame.
    pub fn wait_time(&self, now: u64) -> (r: u64)
        ensures
            r == if now >= next_frame_at(*self) {
                0
            } else {
                next_frame_at(*self) - now
            },
    {
        self.next_frame().saturating_sub(now)
    }

    /// Whether a frame is due at `now`. When it is, the frame counts as
    /// drawn at its due time, or one interval before `now` if the loop has
    /// fallen further behind, so that a slow frame does not cause a burst.
    pub fn poll_frame(&mut self, now: u64) -> (r: bool)
        ensures
            r == (now >= next_frame_at(*old(self))),
            final(self).interval == old(self).interval,
            r ==> final(self).last_frame == if now - old(self).interval > next_frame_at(*old(self)) {
                (now - old(self).interval) as u64
            } else {
                next_frame_at(*old(self))
            },
            !r ==> final(self).last_frame == old(self).last_frame,
    {
        let next = self.next_frame();
        if now >= next {
            let behind = now - self.interval;
            self.last_frame = if behind > next {
                behind
            } else {
                next
            };
            true
        } else {
            false
        }
    }
}

/// What to do to the system cursor's visibility.
#[derive(Debug, Clone, Copy, PartialEq, Eq, Structural)]
pub enum VisibilityChange {
    Hide,
    Show,
    Keep,
}

/// Whether the cursor is shown over the window. Hiding and showing are
/// counted by the system, so each is asked for only on a change.
#[derive(Debug, Clone, Copy, PartialEq, Eq, Structural)]
pub struct CursorState {
    pub visible: bool,
}

impl CursorState {
    /// A shown cursor.
    pub fn new() -> (r: CursorState)
        ensures
            r.visible,
    {
        CursorState { visible: true }
    }

    /// Switches to a hidden cursor if `hidden`, else to a shown one.
    pub fn set_hidden(&mut self, hidden: bool) -> (r: VisibilityChange)
        ensures
            final(self).visible == !hidden,
            r == if hidden && old(self).visible {
                VisibilityChange::Hide
            } else if !hidden && !old(self).visible {
                VisibilityChange::Show
            } else {
                VisibilityChange::Keep
            },
    {
        if hidden && self.visible {
            self.visible = false;
            VisibilityChange::Hide
        } else if !hidden && !self.visible {
            self.visible = true;
            VisibilityChange::Show
        } else {
            VisibilityChange::Keep
        }
    }
}

} // verus!

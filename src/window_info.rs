use vstd::prelude::*;

use crate::event::PhySize;

verus! {

/// Tracks the window's physical size across a batch of native size reports,
/// so that a burst of reports yields at most one `Resized` event and reports
/// that repeat the current size yield none.
#[derive(Debug, Clone, Copy, PartialEq, Eq, Structural)]
pub struct ResizeState {
    /// The size last announced to the handler.
    pub current: PhySize,
    /// The size to announce at the end of the batch, if any.
    pub pending: Option<PhySize>,
}

/// The state after one size report.
pub open spec fn reported(s: ResizeState, size: PhySize) -> ResizeState {
    if s.pending.is_some() || size != s.current {
        ResizeState { current: s.current, pending: Some(size) }
    } else {
        s
    }
}

/// The state after a sequence of size reports, in order.
pub open spec fn reported_all(s: ResizeState, sizes: Seq<PhySize>) -> ResizeState
    decreases sizes.len(),
{
    if sizes.len() == 0 {
        s
    } else {
        reported_all(reported(s, sizes[0]), sizes.drop_first())
    }
}

impl ResizeState {
    /// A tracker for a window whose physical size is `size`.
    pub fn new(size: PhySize) -> (r: ResizeState)
        ensures
            r.current == size,
            r.pending.is_none(),
    {
        ResizeState { current: size, pending: None }
    }

    /// Starts a new batch of reports, forgetting any unannounced size.
    pub fn begin_batch(&mut self)
        ensures
            final(self).current == old(self).current,
            final(self).pending.is_none(),
    {
        self.pending = None;
    }

    /// Records a size reported by the platform.
    pub fn report_size(&mut self, size: PhySize)
        ensures
            *final(self) == reported(*old(self), size),
    {
        if self.pending.is_some() || size != self.current {
            self.pending = Some(size);
        }
    }

    /// Ends the batch: returns the size to announce in a `Resized` event, if
    /// any, and makes it the current size.
    pub fn end_batch(&mut self) -> (r: Option<PhySize>)
        ensures
            r == old(self).pending,
            final(self).pending.is_none(),
            final(self).current == match old(self).pending {
                Some(s) => s,
                None => old(self).current,
            },
    {
        match self.pending.take() {
            Some(size) => {
                self.current = size;
                Some(size)
            },
            None => None,
        }
    }
}

/// A batch of reports that all repeat the current size announces nothing and
/// leaves the tracker as it was.
pub proof fn lemma_repeated_size_is_silent(s: ResizeState, sizes: Seq<PhySize>)
    requires
        s.pending.is_none(),
        forall|i: int| 0 <= i < sizes.len() ==> sizes[i] == s.current,
    ensures
        reported_all(s, sizes) == s,
        reported_all(s, sizes).pending.is_none(),
    decreases sizes.len(),
{
    if sizes.len() > 0 {
        assert(reported(s, sizes[0]) == s);
        let rest = sizes.drop_first();
        assert forall|i: int| 0 <= i < rest.len() implies rest[i] == s.current by {
            assert(rest[i] == sizes[i + 1]);
        }
        lemma_repeated_size_is_silent(s, rest);
    }
}

} // verus!

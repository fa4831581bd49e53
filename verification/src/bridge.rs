//! The live-reload bridge.
//!
//! Source-text edits arrive from the external editor asynchronously, while
//! the render loop picks them up once per frame; the two sides meet in an
//! ordered queue of pending source updates.  The queue is either idle
//! (nothing pending) or pending (edits queued); the render loop drains all
//! queued edits in arrival order at the top of a frame, attempts each in
//! sequence, and thereby returns the bridge to idle.

use vstd::prelude::*;

verus! {

/// The ordered queue of source-text updates waiting for the render loop.
pub struct EditQueue {
    pending: Vec<String>,
}

impl View for EditQueue {
    type V = Seq<String>;

    closed spec fn view(&self) -> Seq<String> {
        self.pending@
    }
}

impl EditQueue {
    /// A fresh bridge with nothing pending.
    pub fn new() -> (q: EditQueue)
        ensures
            q@ == Seq::<String>::empty(),
    {
        let q = EditQueue { pending: Vec::new() };
        proof {
            assert(q@ =~= Seq::<String>::empty());
        }
        q
    }

    /// Whether an edit is pending: the bridge is idle exactly when this is
    /// false.
    pub fn is_pending(&self) -> (b: bool)
        ensures
            b == (self@.len() > 0),
    {
        self.pending.len() > 0
    }

    /// Queues one source-text update behind the ones already pending.
    pub fn submit(&mut self, source: String)
        ensures
            final(self)@ == old(self)@.push(source),
    {
        self.pending.push(source);
    }

    /// Removes and returns every pending update, in arrival order; the
    /// bridge is idle afterwards.
    pub fn drain(&mut self) -> (sources: Vec<String>)
        ensures
            sources@ == old(self)@,
            final(self)@ == Seq::<String>::empty(),
    {
        let mut out: Vec<String> = Vec::new();
        core::mem::swap(&mut out, &mut self.pending);
        proof {
            assert(self@ =~= Seq::<String>::empty());
        }
        out
    }
}

} // verus!

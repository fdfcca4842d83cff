//! The ordered channel that carries input changes from the decoder to the
//! reducer.

use vstd::prelude::*;
use crate::change::{all_valid, InputChange};

verus! {

/// A first-in, first-out queue of valid input changes.
pub struct ChangeQueue {
    items: Vec<InputChange>,
}

impl View for ChangeQueue {
    type V = Seq<InputChange>;

    closed spec fn view(&self) -> Seq<InputChange> {
        self.items@
    }
}

impl ChangeQueue {
    /// Only valid changes are ever queued.
    pub open spec fn wf(&self) -> bool {
        all_valid(self@)
    }

    pub fn new() -> (q: ChangeQueue)
        ensures
            q@ == Seq::<InputChange>::empty(),
            q.wf(),
    {
        ChangeQueue { items: Vec::new() }
    }

    pub fn len(&self) -> (n: usize)
        ensures
            n == self@.len(),
    {
        self.items.len()
    }

    /// Appends one change behind those already queued.
    pub fn send(&mut self, change: InputChange)
        requires
            old(self).wf(),
            change.valid(),
        ensures
            final(self)@ == old(self)@.push(change),
            final(self).wf(),
    {
        self.items.push(change);
    }

    /// Hands out every queued change, oldest first, and leaves the queue
    /// empty.
    pub fn take_all(&mut self) -> (r: Vec<InputChange>)
        ensures
            r@ == old(self)@,
            final(self)@ == Seq::<InputChange>::empty(),
            final(self).wf(),
    {
        let mut out: Vec<InputChange> = Vec::new();
        std::mem::swap(&mut out, &mut self.items);
        out
    }
}

} // verus!

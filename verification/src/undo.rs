//! A linear, branch-truncating undo/redo log: an ordered sequence of
//! entries and a cursor marking the current one.

use vstd::prelude::*;

verus! {

/// The log. It always holds at least one entry; committing a new entry
/// first discards everything after the cursor (the redo branch), and undo
/// and redo only move the cursor, clamping silently at either end.
pub struct UndoQueue<T> {
    queue: Vec<T>,
    index: usize,
}

impl<T> UndoQueue<T> {
    /// The stored entries, oldest first.
    pub closed spec fn entries(self) -> Seq<T> {
        self.queue@
    }

    /// The position of the current entry.
    pub closed spec fn cursor(self) -> int {
        self.index as int
    }

    /// At least one entry, with the cursor on one of them.
    pub open spec fn wf(self) -> bool {
        0 <= self.cursor() < self.entries().len()
    }

    /// Seeds the log with one entry, the cursor on it.
    pub fn new(entry: T) -> (q: UndoQueue<T>)
        ensures
            q.entries() == seq![entry],
            q.cursor() == 0,
            q.wf(),
    {
        let mut queue: Vec<T> = Vec::new();
        queue.push(entry);
        proof {
            assert(queue@ =~= seq![entry]);
        }
        UndoQueue { queue, index: 0 }
    }

    /// The entry under the cursor.
    pub fn current(&self) -> (r: &T)
        requires
            self.wf(),
        ensures
            *r == self.entries()[self.cursor()],
    {
        &self.queue[self.index]
    }

    /// Commits `entry`: discards every entry after the cursor, appends
    /// `entry`, and moves the cursor onto it.
    pub fn push(&mut self, entry: T)
        requires
            old(self).wf(),
        ensures
            final(self).entries() == old(self).entries().take(old(self).cursor() + 1).push(entry),
            final(self).cursor() == old(self).cursor() + 1,
            final(self).wf(),
    {
        proof {
            assert(self.queue@.len() == self.queue.len());
        }
        let kept: usize = self.index + 1;
        self.queue.truncate(kept);
        self.queue.push(entry);
        self.index = kept;
    }

    /// Steps the cursor one entry back; at the oldest entry it is a no-op.
    pub fn undo(&mut self)
        ensures
            final(self).entries() == old(self).entries(),
            final(self).cursor() == if old(self).cursor() > 0 {
                old(self).cursor() - 1
            } else {
                old(self).cursor()
            },
    {
        if self.index >= 1 {
            self.index = self.index - 1;
        }
    }

    /// Steps the cursor one entry forward; at the newest entry it is a
    /// no-op.
    pub fn redo(&mut self)
        requires
            old(self).wf(),
        ensures
            final(self).entries() == old(self).entries(),
            final(self).cursor() == if old(self).cursor() < old(self).entries().len() - 1 {
                old(self).cursor() + 1
            } else {
                old(self).cursor()
            },
            final(self).wf(),
    {
        if self.index < self.queue.len() - 1 {
            self.index = self.index + 1;
        }
    }

    /// Commits `entry` exactly as `push` does; the reset an editor offers
    /// is itself an undoable step, not a wipe of the log.
    pub fn clear(&mut self, entry: T)
        requires
            old(self).wf(),
        ensures
            final(self).entries() == old(self).entries().take(old(self).cursor() + 1).push(entry),
            final(self).cursor() == old(self).cursor() + 1,
            final(self).wf(),
    {
        self.push(entry);
    }
}

} // verus!

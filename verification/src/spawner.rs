//! The enemy timeline cursor of a stage.
use vstd::prelude::*;

verus! {

/// Drives the enemy timeline for the current stage.
///
/// `script` is the ordered list of spawn entries (the engine keeps it sorted
/// by spawn time); `index` is the next entry to process. Entries are
/// consumed in order and never revisited.
pub struct EnemySpawner<E> {
    /// Ordered list of spawn events for this stage.
    pub script: Vec<E>,
    /// Index of the next entry to process.
    pub index: usize,
}

impl<E> Default for EnemySpawner<E> {
    /// An empty script with nothing processed.
    fn default() -> (s: Self)
        ensures
            s.script@.len() == 0,
            s.index == 0,
    {
        EnemySpawner { script: Vec::new(), index: 0 }
    }
}

impl<E> EnemySpawner<E> {
    /// A spawner at the start of `script`.
    pub fn new(script: Vec<E>) -> (s: Self)
        ensures
            s.script@ == script@,
            s.index == 0,
    {
        EnemySpawner { script, index: 0 }
    }

    /// Returns `true` when all entries in the script have been processed.
    pub fn is_finished(&self) -> (r: bool)
        ensures
            r == (self.index >= self.script@.len()),
    {
        self.index >= self.script.len()
    }

    /// The next entry still to be processed, if any.
    pub fn next_pending(&self) -> (r: Option<&E>)
        ensures
            r == (if self.index < self.script@.len() {
                Some(&self.script@[self.index as int])
            } else {
                None::<&E>
            }),
    {
        if self.index < self.script.len() {
            Some(&self.script[self.index])
        } else {
            None
        }
    }

    /// Records that the pending entry has been spawned.
    pub fn mark_spawned(&mut self)
        requires
            old(self).index < old(self).script@.len(),
        ensures
            final(self).index == old(self).index + 1,
            final(self).script@ == old(self).script@,
    {
        let len = self.script.len();
        assert(self.index < len);
        self.index = self.index + 1;
    }

    /// Consumes the entries that are due, in script order, and returns the
    /// index range `(start, end)` of the entries to spawn now.
    ///
    /// `due[k]` tells whether entry `k`'s spawn time has come. Starting at
    /// the next pending entry, the cursor moves past every due entry and
    /// stops at the first one that is not yet due (or at the end of the
    /// script); an entry is never spawned twice, and none is skipped.
    pub fn take_due(&mut self, due: &Vec<bool>) -> (r: (usize, usize))
        requires
            due@.len() == old(self).script@.len(),
        ensures
            r.0 == old(self).index,
            r.1 == final(self).index,
            final(self).script@ == old(self).script@,
            old(self).index <= final(self).index,
            forall|k: int| old(self).index <= k < final(self).index ==> due@[k],
            final(self).index < final(self).script@.len() ==> !due@[final(self).index as int],
            old(self).index >= old(self).script@.len() ==> final(self).index == old(self).index,
            old(self).index < old(self).script@.len() ==> final(self).index <= old(self).script@.len(),
    {
        let start = self.index;
        let len = self.script.len();
        while self.index < len && due[self.index]
            invariant
                start == old(self).index,
                start <= self.index,
                len == self.script@.len(),
                self.script@ == old(self).script@,
                due@.len() == len,
                forall|k: int| start <= k < self.index ==> due@[k],
                start >= len ==> self.index == start,
                start < len ==> self.index <= len,
            decreases len - self.index,
        {
            self.index = self.index + 1;
        }
        (start, self.index)
    }
}

} // verus!

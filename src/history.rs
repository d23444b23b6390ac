use vstd::prelude::*;

verus! {

/// Prior viewport marks, for going back (undo) and forth again (redo). Each
/// step back or forth keeps the mark it leaves on the other stack, so undo and
/// redo retrace the same marks; neither stack is capped.
pub struct History {
    undo: Vec<usize>,
    redo: Vec<usize>,
}

impl History {
    pub closed spec fn undo_stack(&self) -> Seq<usize> {
        self.undo@
    }

    pub closed spec fn redo_stack(&self) -> Seq<usize> {
        self.redo@
    }

    pub fn new() -> (r: History)
        ensures
            r.undo_stack() == Seq::<usize>::empty(),
            r.redo_stack() == Seq::<usize>::empty(),
    {
        History { undo: Vec::new(), redo: Vec::new() }
    }

    /// Remembers the mark that a movement is about to leave.
    pub fn record(&mut self, mark: usize)
        ensures
            final(self).undo_stack() == old(self).undo_stack().push(mark),
            final(self).redo_stack() == old(self).redo_stack(),
    {
        self.undo.push(mark);
    }

    /// Going back from `current`: pops the latest undo entry and returns it,
    /// keeping `current` on the redo stack so that a redo comes back to it;
    /// `None`, with nothing changed, when there is no entry.
    pub fn undo(&mut self, current: usize) -> (r: Option<usize>)
        ensures
            old(self).undo_stack().len() == 0 ==> {
                &&& r is None
                &&& final(self).undo_stack() == old(self).undo_stack()
                &&& final(self).redo_stack() == old(self).redo_stack()
            },
            old(self).undo_stack().len() > 0 ==> {
                &&& r == Some(old(self).undo_stack().last())
                &&& final(self).undo_stack() == old(self).undo_stack().drop_last()
                &&& final(self).redo_stack() == old(self).redo_stack().push(current)
            },
    {
        match self.undo.pop() {
            Some(m) => {
                self.redo.push(current);
                Some(m)
            },
            None => None,
        }
    }

    /// Going forth again from `current`: pops the latest redo entry and
    /// returns it, keeping `current` on the undo stack; `None`, with nothing
    /// changed, when there is no entry.
    pub fn redo(&mut self, current: usize) -> (r: Option<usize>)
        ensures
            old(self).redo_stack().len() == 0 ==> {
                &&& r is None
                &&& final(self).undo_stack() == old(self).undo_stack()
                &&& final(self).redo_stack() == old(self).redo_stack()
            },
            old(self).redo_stack().len() > 0 ==> {
                &&& r == Some(old(self).redo_stack().last())
                &&& final(self).redo_stack() == old(self).redo_stack().drop_last()
                &&& final(self).undo_stack() == old(self).undo_stack().push(current)
            },
    {
        match self.redo.pop() {
            Some(m) => {
                self.undo.push(current);
                Some(m)
            },
            None => None,
        }
    }
}

} // verus!

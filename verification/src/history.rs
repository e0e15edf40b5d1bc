//! The undo history of a clip matrix.

use vstd::prelude::*;

verus! {

/// One point of the history: what the matrix looked like, written down
/// byte by byte, and what was done to get there.
#[derive(Clone, Debug)]
pub struct State {
    pub label: String,
    pub matrix: Vec<u8>,
}

impl State {
    pub fn new(label: String, matrix: Vec<u8>) -> (r: Self)
        ensures
            r.label == label,
            r.matrix == matrix,
    {
        State { label, matrix }
    }
}

/// Data structure holding the undo history: the states that can be gone
/// back to, the present one last, and the states that were gone back from,
/// the latest last.
#[derive(Debug)]
pub struct History {
    pub undo_stack: Vec<State>,
    pub redo_stack: Vec<State>,
}

/// Whether two lists of bytes hold the same bytes.
fn same_bytes(a: &Vec<u8>, b: &Vec<u8>) -> (r: bool)
    ensures
        r == (a@ == b@),
{
    if a.len() != b.len() {
        return false;
    }
    let mut i: usize = 0;
    while i < a.len()
        invariant
            i <= a.len(),
            a.len() == b.len(),
            forall|k: int| 0 <= k < i ==> a[k] == b[k],
        decreases a.len() - i,
    {
        if a[i] != b[i] {
            return false;
        }
        i += 1;
    }
    assert(a@ =~= b@);
    true
}

impl History {
    /// Whether there is a state to go back to.
    pub open spec fn spec_can_undo(self) -> bool {
        self.undo_stack.len() > 1
    }

    /// Whether there is a state to go forward to.
    pub open spec fn spec_can_redo(self) -> bool {
        self.redo_stack.len() > 0
    }

    /// Whether a matrix is the one of the present state.
    pub open spec fn is_present(self, matrix: Seq<u8>) -> bool {
        self.undo_stack.len() > 0 && self.undo_stack@.last().matrix@ == matrix
    }

    /// A history that starts with the given matrix.
    pub fn new(initial_matrix: Vec<u8>) -> (r: Self)
        ensures
            r.undo_stack.len() == 1,
            r.undo_stack[0].label@ == "Initial"@,
            r.undo_stack[0].matrix == initial_matrix,
            r.redo_stack.len() == 0,
    {
        let mut undo_stack = Vec::new();
        undo_stack.push(State::new("Initial".to_owned(), initial_matrix));
        History { undo_stack, redo_stack: Vec::new() }
    }

    /// Returns the label of the next undoable action if there is one.
    pub fn next_undo_label(&self) -> (r: Option<&str>)
        ensures
            r is Some <==> self.spec_can_undo(),
            r is Some ==> r->Some_0@ == self.undo_stack@.last().label@,
    {
        if !self.can_undo() {
            return None;
        }
        let state = &self.undo_stack[self.undo_stack.len() - 1];
        Some(state.label.as_str())
    }

    /// Returns the label of the next redoable action if there is one.
    pub fn next_redo_label(&self) -> (r: Option<&str>)
        ensures
            r is Some <==> self.spec_can_redo(),
            r is Some ==> r->Some_0@ == self.redo_stack@.last().label@,
    {
        if self.redo_stack.len() == 0 {
            return None;
        }
        let state = &self.redo_stack[self.redo_stack.len() - 1];
        Some(state.label.as_str())
    }

    /// Returns if undo is possible.
    pub fn can_undo(&self) -> (r: bool)
        ensures
            r == self.spec_can_undo(),
    {
        self.undo_stack.len() > 1
    }

    /// Returns if redo is possible.
    pub fn can_redo(&self) -> (r: bool)
        ensures
            r == self.spec_can_redo(),
    {
        self.redo_stack.len() > 0
    }

    /// Adds the given history entry if the matrix is different from the one
    /// in the previous undo point. What could be redone is then forgotten.
    pub fn add(&mut self, label: String, new_matrix: Vec<u8>)
        ensures
            old(self).is_present(new_matrix@) ==> *final(self) == *old(self),
            !old(self).is_present(new_matrix@) ==> final(self).redo_stack@.len() == 0
                && final(self).undo_stack@.len() == old(self).undo_stack@.len() + 1
                && final(self).undo_stack@.drop_last() == old(self).undo_stack@
                && final(self).undo_stack@.last().label == label
                && final(self).undo_stack@.last().matrix == new_matrix,
    {
        if self.undo_stack.len() > 0 {
            let prev_state = &self.undo_stack[self.undo_stack.len() - 1];
            if same_bytes(&new_matrix, &prev_state.matrix) {
                return;
            }
        }
        self.redo_stack.clear();
        let new_state = State::new(label, new_matrix);
        self.undo_stack.push(new_state);
        assert(self.undo_stack@.drop_last() =~= old(self).undo_stack@);
    }

    /// Marks the last action as undone and returns the matrix state to be
    /// loaded.
    pub fn undo(&mut self) -> (r: Result<&Vec<u8>, &'static str>)
        ensures
            !old(self).spec_can_undo() ==> r is Err && r->Err_0@ == "nothing to undo"@ && *final(self)
                == *old(self),
            old(self).spec_can_undo() ==> r is Ok && final(self).undo_stack@ == old(
                self,
            ).undo_stack@.drop_last() && final(self).redo_stack@ == old(self).redo_stack@.push(
                old(self).undo_stack@.last(),
            ) && *r->Ok_0 == final(self).undo_stack@.last().matrix,
    {
        if self.undo_stack.len() <= 1 {
            return Err("nothing to undo");
        }
        let state = self.undo_stack.pop().unwrap();
        self.redo_stack.push(state);
        Ok(&self.undo_stack[self.undo_stack.len() - 1].matrix)
    }

    /// Marks the last undone action as redone and returns the matrix state
    /// to be loaded.
    pub fn redo(&mut self) -> (r: Result<&Vec<u8>, &'static str>)
        ensures
            !old(self).spec_can_redo() ==> r is Err && r->Err_0@ == "nothing to redo"@ && *final(self)
                == *old(self),
            old(self).spec_can_redo() ==> r is Ok && final(self).redo_stack@ == old(
                self,
            ).redo_stack@.drop_last() && final(self).undo_stack@ == old(self).undo_stack@.push(
                old(self).redo_stack@.last(),
            ) && *r->Ok_0 == old(self).redo_stack@.last().matrix,
    {
        if self.redo_stack.len() == 0 {
            return Err("nothing to redo");
        }
        let state = self.redo_stack.pop().unwrap();
        self.undo_stack.push(state);
        Ok(&self.undo_stack[self.undo_stack.len() - 1].matrix)
    }
}

/// The two stacks of a history after an undo, where there is something to
/// undo.
pub open spec fn undone(stacks: (Seq<State>, Seq<State>)) -> (Seq<State>, Seq<State>) {
    (stacks.0.drop_last(), stacks.1.push(stacks.0.last()))
}

/// The two stacks of a history after a redo, where there is something to
/// redo.
pub open spec fn redone(stacks: (Seq<State>, Seq<State>)) -> (Seq<State>, Seq<State>) {
    (stacks.0.push(stacks.1.last()), stacks.1.drop_last())
}

/// A redo right after an undo brings the history back to where it was, and
/// so does an undo right after a redo.
pub proof fn law_undo_and_redo_cancel(undo_stack: Seq<State>, redo_stack: Seq<State>)
    ensures
        undo_stack.len() > 0 ==> redone(undone((undo_stack, redo_stack))) == (undo_stack, redo_stack),
        redo_stack.len() > 0 ==> undone(redone((undo_stack, redo_stack))) == (undo_stack, redo_stack),
{
    if undo_stack.len() > 0 {
        let u = undone((undo_stack, redo_stack));
        assert(u.1.last() == undo_stack.last());
        assert(u.0.push(u.1.last()) =~= undo_stack);
        assert(u.1.drop_last() =~= redo_stack);
    }
    if redo_stack.len() > 0 {
        let r = redone((undo_stack, redo_stack));
        assert(r.0.last() == redo_stack.last());
        assert(r.0.drop_last() =~= undo_stack);
        assert(r.1.push(r.0.last()) =~= redo_stack);
    }
}

} // verus!

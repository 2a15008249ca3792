//! The directory stack: the directories to return to, most recent first.

use std::collections::VecDeque;
use vstd::prelude::*;

verus! {

/// A stack of directory paths. The front is the entry pushed last; entries are
/// never deduplicated and their number is not bounded.
pub struct DirectoryStack {
    entries: VecDeque<String>,
}

impl View for DirectoryStack {
    type V = Seq<Seq<char>>;

    /// The paths on the stack, front first.
    closed spec fn view(&self) -> Seq<Seq<char>> {
        self.entries.deep_view()
    }
}

impl DirectoryStack {
    /// An empty stack.
    pub fn new() -> (stack: DirectoryStack)
        ensures
            stack@ == Seq::<Seq<char>>::empty(),
    {
        let stack = DirectoryStack { entries: VecDeque::new() };
        assert(stack@ =~= Seq::<Seq<char>>::empty());
        stack
    }

    /// The number of entries.
    pub fn len(&self) -> (n: usize)
        ensures
            n == self@.len(),
    {
        self.entries.len()
    }

    /// Whether the stack holds no entry.
    pub fn is_empty(&self) -> (empty: bool)
        ensures
            empty == (self@.len() == 0),
    {
        self.entries.len() == 0
    }

    /// Puts `dir` at the front.
    pub fn push(&mut self, dir: String)
        ensures
            final(self)@ == seq![dir@] + old(self)@,
    {
        self.entries.push_front(dir);
        assert(self@ =~= seq![dir@] + old(self)@);
    }

    /// Takes the front entry off, if there is one.
    pub fn pop(&mut self) -> (front: Option<String>)
        ensures
            old(self)@.len() == 0 ==> front is None && final(self)@ == old(self)@,
            old(self)@.len() > 0 ==> front is Some && front->0@ == old(self)@[0] && final(self)@
                == old(self)@.drop_first(),
    {
        let front = self.entries.pop_front();
        assert(old(self)@.len() > 0 ==> self@ =~= old(self)@.drop_first());
        front
    }

    /// Copies of the entries, front first.
    pub fn entries(&self) -> (list: Vec<String>)
        ensures
            list.deep_view() == self@,
    {
        let mut list: Vec<String> = Vec::new();
        let mut i: usize = 0;
        while i < self.entries.len()
            invariant
                i <= self.entries.len(),
                list.len() == i,
                forall|j: int| 0 <= j < i ==> list@[j]@ == self.entries@[j]@,
            decreases self.entries.len() - i,
        {
            list.push(self.entries[i].clone());
            i += 1;
        }
        assert(list.deep_view() =~= self@);
        list
    }
}

} // verus!

//! Command history: the ordered list of committed lines, most recent
//! first, so that index 0 is always the line entered last.

use vstd::prelude::*;
use crate::chars::copy_chars;

verus! {

/// Stores past command lines. Abstractly a sequence of character
/// sequences ordered most recent first.
pub struct DefaultHistory {
    entries: Vec<Vec<char>>,
}

impl View for DefaultHistory {
    type V = Seq<Seq<char>>;

    closed spec fn view(&self) -> Seq<Seq<char>> {
        self.entries.deep_view()
    }
}

impl DefaultHistory {
    /// A fresh, empty history.
    pub fn new() -> (r: Self)
        ensures
            r@ =~= Seq::<Seq<char>>::empty(),
    {
        DefaultHistory { entries: Vec::new() }
    }

    /// Record a newly committed line as the most recent entry; every
    /// older entry shifts one index up.
    pub fn add(&mut self, entry: Vec<char>)
        ensures
            final(self)@ =~= seq![entry@] + old(self)@,
    {
        self.entries.insert(0, entry);
        proof {
            assert(self.entries@ =~= seq![entry] + old(self).entries@);
            assert forall|i: int| 0 <= i < self@.len() implies self@[i]
                == (seq![entry@] + old(self)@)[i] by {
                assert(self@[i] == self.entries@[i]@);
            }
            assert(self@ =~= seq![entry@] + old(self)@);
        }
    }

    /// The entry at `ind` (0 is the most recent), or nothing when `ind`
    /// is out of range.
    pub fn get(&self, ind: usize) -> (r: Option<Vec<char>>)
        ensures
            ind < self@.len() ==> r is Some && r->Some_0@ == self@[ind as int],
            ind >= self@.len() ==> r is None,
    {
        if ind < self.entries.len() {
            let r = copy_chars(&self.entries[ind]);
            proof {
                assert(self.entries.deep_view()[ind as int] == self.entries@[ind as int]@);
            }
            Some(r)
        } else {
            None
        }
    }

    /// The number of stored entries.
    pub fn len(&self) -> (r: usize)
        ensures
            r == self@.len(),
    {
        self.entries.len()
    }
}

} // verus!

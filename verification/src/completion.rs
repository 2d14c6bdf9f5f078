//! Completion candidates: the default completer owns a word list and
//! offers, for a given prefix, the words that start with it, in list
//! order.

use vstd::prelude::*;
use crate::chars::{copy_chars, starts_with};

verus! {

/// Context handed to the completer along with the word under the cursor.
pub struct CompletionCtx {
    /// Which positional word of the line is being completed, counting
    /// from 1.
    pub arg_num: usize,
}

/// The words of `words` that `word` is a prefix of, keeping their order.
pub open spec fn completions_of(words: Seq<Seq<char>>, word: Seq<char>) -> Seq<Seq<char>>
    decreases words.len(),
{
    if words.len() == 0 {
        Seq::empty()
    } else {
        let rest = completions_of(words.drop_last(), word);
        if word.is_prefix_of(words.last()) {
            rest.push(words.last())
        } else {
            rest
        }
    }
}

/// A prefix completer over a fixed word list.
pub struct DefaultCompleter {
    words: Vec<Vec<char>>,
}

impl View for DefaultCompleter {
    type V = Seq<Seq<char>>;

    closed spec fn view(&self) -> Seq<Seq<char>> {
        self.words.deep_view()
    }
}

impl DefaultCompleter {
    /// A completer that draws its candidates from `words`.
    pub fn new(words: Vec<Vec<char>>) -> (r: Self)
        ensures
            r@ == words.deep_view(),
    {
        DefaultCompleter { words }
    }

    /// All candidates for `word`: the stored words that start with it,
    /// in stored order. The context does not affect the default
    /// strategy.
    pub fn complete(&self, word: &Vec<char>, _ctx: &CompletionCtx) -> (r: Vec<Vec<char>>)
        ensures
            r.deep_view() == completions_of(self@, word@),
    {
        let mut r: Vec<Vec<char>> = Vec::new();
        let mut i: usize = 0;
        while i < self.words.len()
            invariant
                i <= self.words.len(),
                r.deep_view() =~= completions_of(self.words.deep_view().subrange(0, i as int), word@),
            decreases self.words.len() - i,
        {
            let ghost pre = self.words.deep_view().subrange(0, i as int);
            let ghost cur = self.words.deep_view().subrange(0, i + 1);
            proof {
                assert(cur.drop_last() =~= pre);
                assert(cur.last() == self.words@[i as int]@);
            }
            if starts_with(word, &self.words[i]) {
                let item = copy_chars(&self.words[i]);
                r.push(item);
                proof {
                    assert(r.deep_view() =~= completions_of(cur, word@));
                }
            } else {
                proof {
                    assert(r.deep_view() =~= completions_of(cur, word@));
                }
            }
            i = i + 1;
        }
        proof {
            assert(self.words.deep_view().subrange(0, self.words@.len() as int) =~= self.words.deep_view());
        }
        r
    }
}

} // verus!

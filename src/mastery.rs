//! Practice counts per letter, and the choice of the letter to show next.

use vstd::prelude::*;
use crate::letter::{index_of, letter_at, letter_index, tracked_letter, ALPHABET_LEN};

verus! {

/// How often each of the 26 letters has been practised, in alphabetical order.
#[derive(Clone, Debug)]
pub struct MasteryTable {
    scores: Vec<u64>,
}

/// `c` is the letter to present next for `scores`: it has the lowest score,
/// and every letter before it in the alphabet has a higher one.
pub open spec fn is_next_choice(scores: Seq<u64>, c: char) -> bool {
    &&& tracked_letter(c)
    &&& forall|j: int| 0 <= j < scores.len() ==> scores[index_of(c)] <= #[trigger] scores[j]
    &&& forall|j: int| 0 <= j < index_of(c) ==> scores[index_of(c)] < #[trigger] scores[j]
}

impl View for MasteryTable {
    type V = Seq<u64>;

    closed spec fn view(&self) -> Seq<u64> {
        self.scores@
    }
}

impl MasteryTable {
    /// The table holds one score per letter.
    pub open spec fn wf(&self) -> bool {
        self@.len() == ALPHABET_LEN
    }

    /// A table with every score at zero.
    pub fn new() -> (t: MasteryTable)
        ensures
            t.wf(),
            forall|i: int| 0 <= i < ALPHABET_LEN ==> t@[i] == 0,
    {
        let mut scores: Vec<u64> = Vec::new();
        while scores.len() < ALPHABET_LEN
            invariant
                scores@.len() <= ALPHABET_LEN,
                forall|i: int| 0 <= i < scores@.len() ==> scores@[i] == 0,
            decreases ALPHABET_LEN - scores@.len(),
        {
            scores.push(0);
        }
        MasteryTable { scores }
    }

    /// The score of a letter.
    pub fn score(&self, letter: char) -> (r: u64)
        requires
            self.wf(),
            tracked_letter(letter),
        ensures
            r == self@[index_of(letter)],
    {
        self.scores[letter_index(letter)]
    }

    /// Counts one more practice of `letter`; every other score stays. A symbol
    /// outside the alphabet changes nothing.
    pub fn record_practice(&mut self, letter: char)
        requires
            old(self).wf(),
            tracked_letter(letter) ==> old(self)@[index_of(letter)] < u64::MAX,
        ensures
            final(self).wf(),
            tracked_letter(letter) ==> final(self)@ == old(self)@.update(
                index_of(letter),
                (old(self)@[index_of(letter)] + 1) as u64,
            ),
            !tracked_letter(letter) ==> final(self)@ == old(self)@,
    {
        if 'a' <= letter && letter <= 'z' {
            let i = letter_index(letter);
            let s = self.scores[i];
            self.scores.set(i, s + 1);
        }
    }

    /// The letter to present next: the one with the lowest score, the earliest
    /// in the alphabet among equals.
    pub fn select_next(&self) -> (r: char)
        requires
            self.wf(),
        ensures
            is_next_choice(self@, r),
    {
        let mut best: usize = 0;
        let mut i: usize = 1;
        while i < ALPHABET_LEN
            invariant
                self.wf(),
                best < i <= ALPHABET_LEN,
                forall|j: int| 0 <= j < i ==> self@[best as int] <= #[trigger] self@[j],
                forall|j: int| 0 <= j < best ==> self@[best as int] < #[trigger] self@[j],
            decreases ALPHABET_LEN - i,
        {
            if self.scores[i] < self.scores[best] {
                best = i;
            }
            i = i + 1;
        }
        let r = letter_at(best);
        assert(index_of(r) == best);
        r
    }
}

} // verus!

//! One drill session: the letter on show and the practice counts so far.

use vstd::prelude::*;
use crate::letter::{index_of, tracked_letter, ALPHABET_LEN};
use crate::mastery::{is_next_choice, MasteryTable};
use crate::stimulus::{stimulus_of, Stimulus, azimuth_spec, octaves_spec, saturation_spec};
use crate::color::{hex_spec, palette};

verus! {

/// The state of a drill: the current letter and the mastery table.
#[derive(Clone, Debug)]
pub struct Session {
    current: char,
    mastery: MasteryTable,
}

impl Session {
    /// The current letter is in the alphabet and the table is well formed.
    pub open spec fn wf(&self) -> bool {
        &&& tracked_letter(self.current_spec())
        &&& self.mastery_spec().wf()
    }

    pub closed spec fn current_spec(&self) -> char {
        self.current
    }

    pub closed spec fn mastery_spec(&self) -> MasteryTable {
        self.mastery
    }

    /// A fresh session: it shows `a`, and no letter has been practised.
    pub fn new() -> (s: Session)
        ensures
            s.wf(),
            s.current_spec() == 'a',
            forall|i: int| 0 <= i < ALPHABET_LEN ==> s.mastery_spec()@[i] == 0,
    {
        Session { current: 'a', mastery: MasteryTable::new() }
    }

    /// The letter on show.
    pub fn current_letter(&self) -> (r: char)
        ensures
            r == self.current_spec(),
    {
        self.current
    }

    /// The practice counts so far.
    pub fn mastery(&self) -> (r: &MasteryTable)
        ensures
            *r == self.mastery_spec(),
    {
        &self.mastery
    }

    /// What to show and sound for the current letter; the session is unchanged.
    pub fn play(&self) -> (s: Stimulus)
        requires
            self.wf(),
        ensures
            s.letter == self.current_spec(),
            s.color == palette(self.current_spec()),
            s.hex@ == hex_spec(palette(self.current_spec())),
            s.octaves == octaves_spec(self.current_spec()),
            s.volume == saturation_spec(self.current_spec()),
            s.azimuth == azimuth_spec(self.current_spec()),
    {
        stimulus_of(self.current)
    }

    /// Counts one practice of the current letter and moves on to the
    /// least-practised letter, the earliest in the alphabet among equals.
    pub fn advance(&mut self)
        requires
            old(self).wf(),
            old(self).mastery_spec()@[index_of(old(self).current_spec())] < u64::MAX,
        ensures
            final(self).wf(),
            final(self).mastery_spec()@ == old(self).mastery_spec()@.update(
                index_of(old(self).current_spec()),
                (old(self).mastery_spec()@[index_of(old(self).current_spec())] + 1) as u64,
            ),
            is_next_choice(final(self).mastery_spec()@, final(self).current_spec()),
    {
        self.mastery.record_practice(self.current);
        self.current = self.mastery.select_next();
    }
}

// ---------------------------------------------------------------------------
// Laws

/// Scores only grow: after an advance no letter's score is lower than before,
/// and exactly one is higher, by one.
pub proof fn lemma_scores_never_decrease(before: Seq<u64>, after: Seq<u64>, letter: char)
    requires
        before.len() == ALPHABET_LEN,
        tracked_letter(letter),
        before[index_of(letter)] < u64::MAX,
        after == before.update(index_of(letter), (before[index_of(letter)] + 1) as u64),
    ensures
        after.len() == before.len(),
        forall|i: int| 0 <= i < ALPHABET_LEN ==> before[i] <= #[trigger] after[i],
        after[index_of(letter)] == before[index_of(letter)] + 1,
        forall|i: int| 0 <= i < ALPHABET_LEN && i != index_of(letter) ==> #[trigger] after[i] == before[i],
{
}

/// On a table where every score is the same, the next letter is `a`.
pub proof fn lemma_even_table_starts_at_a(scores: Seq<u64>, c: char)
    requires
        scores.len() == ALPHABET_LEN,
        forall|i: int| 0 <= i < ALPHABET_LEN ==> #[trigger] scores[i] == scores[0],
        is_next_choice(scores, c),
    ensures
        c == 'a',
{
    if index_of(c) > 0 {
        assert(scores[index_of(c)] < scores[0]);
    }
}

/// Practice goes round the alphabet: when the first `i` letters have been
/// practised once more than the rest, the next letter is the `i`-th.
pub proof fn lemma_round_robin(scores: Seq<u64>, k: u64, i: int, c: char)
    requires
        scores.len() == ALPHABET_LEN,
        0 <= i < ALPHABET_LEN,
        forall|j: int| 0 <= j < i ==> #[trigger] scores[j] == k + 1,
        forall|j: int| i <= j < ALPHABET_LEN ==> #[trigger] scores[j] == k,
        is_next_choice(scores, c),
    ensures
        index_of(c) == i,
{
    if index_of(c) < i {
        assert(scores[index_of(c)] <= scores[i]);
    } else if index_of(c) > i {
        assert(scores[index_of(c)] < scores[i]);
    }
}

} // verus!

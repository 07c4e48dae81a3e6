//! The ordered results of one task, revised in place as the service refines
//! its sentences.

use crate::error::GummyError;
use crate::text::{chars_of, copy_text};
use vstd::prelude::*;

verus! {

/// The mathematical value of a [`Transcription`].
pub struct TranscriptionView {
    pub begin_time: u64,
    pub end_time: u64,
    pub text: Seq<char>,
    pub translated_text: Option<Seq<char>>,
}

/// One sentence as the service last reported it. Times are in milliseconds.
#[derive(Debug)]
pub struct Transcription {
    pub begin_time: u64,
    pub end_time: u64,
    pub text: String,
    pub translated_text: Option<String>,
}

impl View for Transcription {
    type V = TranscriptionView;

    open spec fn view(&self) -> TranscriptionView {
        TranscriptionView {
            begin_time: self.begin_time,
            end_time: self.end_time,
            text: self.text@,
            translated_text: chars_of(self.translated_text),
        }
    }
}

impl Clone for Transcription {
    fn clone(&self) -> (r: Self)
        ensures
            r@ == self@,
    {
        Transcription {
            begin_time: self.begin_time,
            end_time: self.end_time,
            text: self.text.clone(),
            translated_text: copy_text(&self.translated_text),
        }
    }
}

/// The values of a sequence of transcriptions, in order.
pub open spec fn views(entries: Seq<Transcription>) -> Seq<TranscriptionView> {
    entries.map_values(|t: Transcription| t@)
}

/// An entry after a revision: times and text are the revision's; the
/// translation is the revision's if it carries one, else the one already
/// recorded.
pub open spec fn revised(entry: TranscriptionView, update: TranscriptionView) -> TranscriptionView {
    TranscriptionView {
        begin_time: update.begin_time,
        end_time: update.end_time,
        text: update.text,
        translated_text: if update.translated_text is Some {
            update.translated_text
        } else {
            entry.translated_text
        },
    }
}

/// Whether an update for `index` is accepted by a sequence of this length:
/// it revises an entry or appends the next one.
pub open spec fn accepts(len: nat, index: int) -> bool {
    0 <= index <= len
}

/// The sequence after an update for `index`: appended at the end, revised
/// in place, or left alone where the index would leave a gap.
pub open spec fn applied(
    entries: Seq<TranscriptionView>,
    update: TranscriptionView,
    index: int,
) -> Seq<TranscriptionView> {
    if index == entries.len() {
        entries.push(update)
    } else if 0 <= index < entries.len() {
        entries.update(index, revised(entries[index], update))
    } else {
        entries
    }
}

/// The results of one task, by sentence index.
#[derive(Debug)]
pub struct Accumulator {
    entries: Vec<Transcription>,
}

impl View for Accumulator {
    type V = Seq<TranscriptionView>;

    closed spec fn view(&self) -> Seq<TranscriptionView> {
        views(self.entries@)
    }
}

impl Accumulator {
    /// An accumulator without entries.
    pub fn new() -> (r: Self)
        ensures
            r@ == Seq::<TranscriptionView>::empty(),
    {
        let r = Accumulator { entries: Vec::new() };
        assert(r@ =~= Seq::<TranscriptionView>::empty());
        r
    }

    /// The number of sentences recorded.
    pub fn len(&self) -> (n: usize)
        ensures
            n == self@.len(),
    {
        self.entries.len()
    }

    /// Records an update for the sentence at `sentence_index`.
    ///
    /// An index equal to the length appends the update. A smaller index
    /// revises that entry: an update without a translation keeps the one
    /// already recorded. A larger index would leave a gap: it is rejected
    /// and nothing changes.
    pub fn apply(&mut self, update: Transcription, sentence_index: u64) -> (r: Result<
        (),
        GummyError,
    >)
        ensures
            final(self)@ == applied(old(self)@, update@, sentence_index as int),
            accepts(old(self)@.len(), sentence_index as int) ==> r == Ok::<(), GummyError>(()),
            !accepts(old(self)@.len(), sentence_index as int) ==> r == Err::<(), GummyError>(
                GummyError::MalformedMessage,
            ) && final(self)@ == old(self)@,
            sentence_index < old(self)@.len() && update@.translated_text is None ==> {
                let i = sentence_index as int;
                final(self)@[i].translated_text == old(self)@[i].translated_text
            },
    {
        let len = self.entries.len();
        if sentence_index > len as u64 {
            return Err(GummyError::MalformedMessage);
        }
        let index = sentence_index as usize;
        if index == len {
            self.entries.push(update);
            assert(self@ =~= old(self)@.push(update@));
        } else {
            let translated_text = match update.translated_text {
                Some(t) => Some(t),
                None => copy_text(&self.entries[index].translated_text),
            };
            let entry = Transcription {
                begin_time: update.begin_time,
                end_time: update.end_time,
                text: update.text,
                translated_text,
            };
            self.entries.set(index, entry);
            assert(self@ =~= old(self)@.update(
                index as int,
                revised(old(self)@[index as int], update@),
            ));
        }
        Ok(())
    }

    /// A copy of the recorded sentences, in index order.
    pub fn snapshot(&self) -> (r: Vec<Transcription>)
        ensures
            views(r@) == self@,
    {
        let mut copy: Vec<Transcription> = Vec::new();
        let mut i: usize = 0;
        while i < self.entries.len()
            invariant
                i <= self.entries@.len(),
                copy@.len() == i,
                forall|j: int| 0 <= j < i ==> copy@[j]@ == self.entries@[j]@,
            decreases self.entries@.len() - i,
        {
            let entry = self.entries[i].clone();
            copy.push(entry);
            i += 1;
        }
        assert(views(copy@) =~= views(self.entries@));
        copy
    }
}

/// One call of [`Accumulator::apply`]: the update and the index it names.
pub struct Call {
    pub update: TranscriptionView,
    pub index: int,
}

/// The entries after a series of calls on an accumulator that holds
/// `entries`.
pub open spec fn replay_onto(entries: Seq<TranscriptionView>, calls: Seq<Call>) -> Seq<
    TranscriptionView,
>
    decreases calls.len(),
{
    if calls.len() == 0 {
        entries
    } else {
        applied(replay_onto(entries, calls.drop_last()), calls.last().update, calls.last().index)
    }
}

/// The entries after a series of calls on an empty accumulator.
pub open spec fn replay(calls: Seq<Call>) -> Seq<TranscriptionView> {
    replay_onto(Seq::empty(), calls)
}

/// The indices named by the calls of a series that were accepted.
pub open spec fn accepted_indices(calls: Seq<Call>) -> Set<int>
    decreases calls.len(),
{
    if calls.len() == 0 {
        Set::empty()
    } else if accepts(replay(calls.drop_last()).len(), calls.last().index) {
        accepted_indices(calls.drop_last()).insert(calls.last().index)
    } else {
        accepted_indices(calls.drop_last())
    }
}

/// The indices named by the calls of a series.
pub open spec fn named_indices(calls: Seq<Call>) -> Set<int>
    decreases calls.len(),
{
    if calls.len() == 0 {
        Set::empty()
    } else {
        named_indices(calls.drop_last()).insert(calls.last().index)
    }
}

/// Every call of the series names an index that is accepted when its turn
/// comes: the indices rise one by one, with repeats of earlier ones.
pub open spec fn in_order(calls: Seq<Call>) -> bool
    decreases calls.len(),
{
    calls.len() > 0 ==> in_order(calls.drop_last()) && accepts(
        replay(calls.drop_last()).len(),
        calls.last().index,
    )
}

/// The integers from 0 up to, not including, `n`.
pub open spec fn below(n: nat) -> Set<int> {
    Set::new(|i: int| 0 <= i < n)
}

proof fn lemma_below(n: nat)
    ensures
        below(n).finite(),
        below(n).len() == n,
    decreases n,
{
    if n == 0 {
        assert(below(0) =~= Set::<int>::empty());
    } else {
        lemma_below((n - 1) as nat);
        assert(below(n) =~= below((n - 1) as nat).insert(n - 1));
    }
}

proof fn lemma_named_finite(calls: Seq<Call>)
    ensures
        named_indices(calls).finite(),
        accepted_indices(calls).subset_of(named_indices(calls)),
    decreases calls.len(),
{
    if calls.len() > 0 {
        lemma_named_finite(calls.drop_last());
    }
}

/// After any series of calls on an empty accumulator the entries are
/// exactly the accepted indices: these are the integers below the length,
/// so the length is their number, and it never exceeds the number of
/// distinct indices that the calls named.
pub proof fn law_length_counts_accepted_indices(calls: Seq<Call>)
    ensures
        accepted_indices(calls) == below(replay(calls).len()),
        accepted_indices(calls).finite(),
        replay(calls).len() == accepted_indices(calls).len(),
        named_indices(calls).finite(),
        replay(calls).len() <= named_indices(calls).len(),
    decreases calls.len(),
{
    lemma_named_finite(calls);
    if calls.len() > 0 {
        law_length_counts_accepted_indices(calls.drop_last());
    }
    assert(accepted_indices(calls) =~= below(replay(calls).len()));
    lemma_below(replay(calls).len());
    vstd::set_lib::lemma_len_subset(accepted_indices(calls), named_indices(calls));
}

/// Where the indices of a series rise one by one, with repeats of earlier
/// ones, every call is accepted and the length is the number of distinct
/// indices named.
pub proof fn law_length_counts_distinct_indices(calls: Seq<Call>)
    requires
        in_order(calls),
    ensures
        named_indices(calls).finite(),
        replay(calls).len() == named_indices(calls).len(),
    decreases calls.len(),
{
    lemma_in_order_accepts_all(calls);
    law_length_counts_accepted_indices(calls);
}

proof fn lemma_in_order_accepts_all(calls: Seq<Call>)
    requires
        in_order(calls),
    ensures
        accepted_indices(calls) == named_indices(calls),
    decreases calls.len(),
{
    if calls.len() > 0 {
        lemma_in_order_accepts_all(calls.drop_last());
    }
}

} // verus!

//! What a finish keeps: the results that arrive while the end of a task is
//! awaited, seen as calls on the accumulator.

use crate::accumulator::{
    in_order, law_length_counts_distinct_indices, named_indices, replay, replay_onto, Call,
};
use crate::event::{decoded, EventView};
use crate::protocol::{advanced, drained, FinishView, ReceivedView, TaskView};
use vstd::prelude::*;

verus! {

/// Whether a read carries a result for the task.
pub open spec fn is_result(task_id: Seq<char>, received: ReceivedView) -> bool {
    received matches ReceivedView::Text(text) && decoded(text) matches Ok(
        EventView::ResultGenerated { task_id: id, .. },
    ) && id == task_id
}

/// The call on the accumulator that a result stands for.
pub open spec fn call_of(received: ReceivedView) -> Call {
    let event = decoded(received->Text_0)->Ok_0;
    Call {
        update: event->ResultGenerated_update,
        index: event->ResultGenerated_sentence_id as int,
    }
}

/// The calls that the results for the task in a script stand for, in the
/// order of their arrival.
pub open spec fn calls_of(task_id: Seq<char>, script: Seq<ReceivedView>) -> Seq<Call>
    decreases script.len(),
{
    if script.len() == 0 {
        Seq::empty()
    } else if is_result(task_id, script.last()) {
        calls_of(task_id, script.drop_last()).push(call_of(script.last()))
    } else {
        calls_of(task_id, script.drop_last())
    }
}

/// The task once the given calls have been made on its entries.
pub open spec fn with_calls(task: TaskView, calls: Seq<Call>) -> TaskView {
    TaskView { entries: replay_onto(task.entries, calls), ..task }
}

proof fn lemma_drained_push(task: TaskView, script: Seq<ReceivedView>, received: ReceivedView)
    ensures
        drained(task, script.push(received)) == match drained(task, script) {
            FinishView::Waiting(next) => advanced(next, received),
            decision => decision,
        },
    decreases script.len(),
{
    let longer = script.push(received);
    if script.len() == 0 {
        assert(longer.skip(1) =~= Seq::<ReceivedView>::empty());
        assert(drained(task, longer) == match advanced(task, received) {
            FinishView::Waiting(next) => drained(next, longer.skip(1)),
            decision => decision,
        });
    } else {
        assert(longer[0] == script[0]);
        assert(longer.skip(1) =~= script.skip(1).push(received));
        match advanced(task, script[0]) {
            FinishView::Waiting(next) => {
                lemma_drained_push(next, script.skip(1), received);
            },
            _ => {},
        }
    }
}

/// While a session waits for the end of its task, every result for the task
/// that a script delivers is recorded exactly once and in the order of
/// arrival: after any script that leaves the session waiting, and after one
/// whose last read ends the task, the entries are those that the script's
/// results give as calls on the accumulator. Where the last read fails, the
/// entries are those of the reads before it.
pub proof fn law_finish_records_every_result(task: TaskView, script: Seq<ReceivedView>)
    ensures
        drained(task, script) matches FinishView::Waiting(after) ==> after == with_calls(
            task,
            calls_of(task.task_id, script),
        ),
        script.len() > 0 && drained(task, script.drop_last()) is Waiting ==> match drained(
            task,
            script,
        ) {
            FinishView::Waiting(_) => true,
            FinishView::Finished(after) => after.task_id == task.task_id && after.entries
                == replay_onto(task.entries, calls_of(task.task_id, script)),
            FinishView::Failed(after, _) => after == with_calls(
                task,
                calls_of(task.task_id, script.drop_last()),
            ),
        },
    decreases script.len(),
{
    if script.len() > 0 {
        let before = script.drop_last();
        let received = script.last();
        assert(script =~= before.push(received));
        law_finish_records_every_result(task, before);
        lemma_drained_push(task, before, received);
        if is_result(task.task_id, received) {
            let calls = calls_of(task.task_id, script);
            assert(calls.drop_last() =~= calls_of(task.task_id, before));
        }
    }
}

proof fn lemma_fresh_task_in_order(task: TaskView, script: Seq<ReceivedView>)
    requires
        task.entries.len() == 0,
        drained(task, script) is Waiting || (script.len() > 0 && drained(
            task,
            script.drop_last(),
        ) is Waiting && drained(task, script) is Finished),
    ensures
        in_order(calls_of(task.task_id, script)),
    decreases script.len(),
{
    if script.len() > 0 {
        let before = script.drop_last();
        let received = script.last();
        assert(script =~= before.push(received));
        lemma_drained_push(task, before, received);
        lemma_fresh_task_in_order(task, before);
        law_finish_records_every_result(task, before);
        assert(task.entries =~= Seq::empty());
        if is_result(task.task_id, received) {
            let calls = calls_of(task.task_id, script);
            assert(calls.drop_last() =~= calls_of(task.task_id, before));
        }
    }
}

/// A task that had no entries when the wait began, and whose script ends
/// with the read that finishes it, holds as many sentences as its results
/// named distinct indices, and its entries are the replay of those results.
pub proof fn law_fresh_task_counts_sentences(task: TaskView, script: Seq<ReceivedView>)
    requires
        task.entries.len() == 0,
        script.len() > 0,
        drained(task, script.drop_last()) is Waiting,
        drained(task, script) is Finished,
    ensures
        drained(task, script)->Finished_0.entries == replay(calls_of(task.task_id, script)),
        named_indices(calls_of(task.task_id, script)).finite(),
        drained(task, script)->Finished_0.entries.len() == named_indices(
            calls_of(task.task_id, script),
        ).len(),
{
    law_finish_records_every_result(task, script);
    lemma_fresh_task_in_order(task, script);
    assert(task.entries =~= Seq::empty());
    law_length_counts_distinct_indices(calls_of(task.task_id, script));
}

} // verus!

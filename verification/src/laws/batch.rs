//! What holds of every batch, whatever the file system does.
//!
//! The laws speak of a batch on which no step has been taken and of the
//! outcomes reported for its steps: outcome `0` is that of creating the
//! directory, outcome `1 + i` that of writing attachment `i`, as long as
//! nothing fails.

use crate::attachment::AttachmentView;
use crate::error::ErrorView;
use crate::writer::{
    base_directory, stored_names, stored_path, ActionView, OutcomeView, PhaseView, WriterView,
};
use vstd::prelude::*;

verus! {

/// The first `count` outcomes are all successes.
pub open spec fn all_succeeded(outcomes: Seq<OutcomeView>, count: int) -> bool {
    &&& count <= outcomes.len()
    &&& forall|i: int| 0 <= i < count ==> outcomes[i] is Succeeded
}

/// The step that a fresh batch asks for once the first `steps` outcomes have
/// been recorded.
pub open spec fn step_after(
    attachments: Seq<AttachmentView>,
    directory: Seq<char>,
    prefix: Seq<char>,
    outcomes: Seq<OutcomeView>,
    steps: int,
) -> ActionView {
    WriterView::initial(attachments, directory, prefix).run(outcomes.take(steps)).pending()
}

/// Recording one more outcome is one more transition.
proof fn lemma_run_step(batch: WriterView, outcomes: Seq<OutcomeView>, steps: int)
    requires
        0 <= steps < outcomes.len(),
    ensures
        batch.run(outcomes.take(steps + 1)) == batch.run(outcomes.take(steps)).after(
            outcomes[steps],
        ),
{
    assert(outcomes.take(steps + 1).drop_last() == outcomes.take(steps));
}

/// While everything succeeds, the batch has written as many attachments as
/// writes were reported.
proof fn lemma_progress(batch: WriterView, outcomes: Seq<OutcomeView>, count: int)
    requires
        batch.phase is Preparing,
        0 <= count <= batch.attachments.len(),
        all_succeeded(outcomes, count + 1),
    ensures
        batch.run(outcomes.take(count + 1)) == (WriterView {
            phase: PhaseView::Writing { index: count as nat },
            ..batch
        }),
    decreases count,
{
    lemma_run_step(batch, outcomes, count);
    if count == 0 {
        assert(outcomes.take(0).len() == 0);
    } else {
        lemma_progress(batch, outcomes, count - 1);
    }
}

/// After a write failed, each further outcome takes care of one more file.
proof fn lemma_unwinding(
    batch: WriterView,
    outcomes: Seq<OutcomeView>,
    failed: int,
    cause: Seq<char>,
    removed: int,
)
    requires
        batch.phase is Preparing,
        0 <= failed < batch.attachments.len(),
        all_succeeded(outcomes, failed + 1),
        0 <= removed <= failed,
        failed + 2 + removed <= outcomes.len(),
        outcomes[failed + 1] == (OutcomeView::Failed { cause }),
    ensures
        batch.run(outcomes.take(failed + 2 + removed)) == (WriterView {
            phase: PhaseView::Failing {
                removed: removed as nat,
                written: failed as nat,
                cause,
            },
            ..batch
        }),
    decreases removed,
{
    lemma_run_step(batch, outcomes, failed + 1 + removed);
    if removed == 0 {
        lemma_progress(batch, outcomes, failed);
    } else {
        lemma_unwinding(batch, outcomes, failed, cause, removed - 1);
    }
}

/// How many steps a batch may still ask for before it ends, at most.
pub open spec fn steps_left(batch: WriterView) -> nat {
    let count = batch.attachments.len();
    match batch.phase {
        PhaseView::Preparing => 2 * count + 1,
        PhaseView::Writing { index } => if index < count {
            (2 * count - index) as nat
        } else {
            0
        },
        PhaseView::Failing { removed, written, .. } => if removed < written {
            (written - removed) as nat
        } else {
            0
        },
    }
}

/// Every outcome brings a batch closer to its end, and keeps its counters
/// within the batch.
pub proof fn lemma_step_makes_progress(batch: WriterView, outcome: OutcomeView)
    requires
        batch.wf(),
    ensures
        batch.after(outcome).wf(),
        batch.finished() <==> steps_left(batch) == 0,
        !batch.finished() ==> steps_left(batch.after(outcome)) < steps_left(batch),
        batch.finished() ==> batch.after(outcome) == batch,
{
}

/// No batch goes on for ever: once twice as many outcomes as there are
/// attachments, and one more, have been recorded, the batch has ended.
pub proof fn lemma_batch_ends(
    attachments: Seq<AttachmentView>,
    directory: Seq<char>,
    prefix: Seq<char>,
    outcomes: Seq<OutcomeView>,
)
    requires
        outcomes.len() >= 2 * attachments.len() + 1,
    ensures
        step_after(attachments, directory, prefix, outcomes, outcomes.len() as int) is Finished,
{
    let batch = WriterView::initial(attachments, directory, prefix);
    lemma_countdown(batch, outcomes);
    assert(outcomes.take(outcomes.len() as int) == outcomes);
    lemma_step_makes_progress(batch.run(outcomes), OutcomeView::Succeeded);
}

/// Recording outcomes uses up the steps that are left, one by one.
proof fn lemma_countdown(batch: WriterView, outcomes: Seq<OutcomeView>)
    requires
        batch.wf(),
    ensures
        batch.run(outcomes).wf(),
        steps_left(batch.run(outcomes)) + outcomes.len() <= steps_left(batch) || steps_left(
            batch.run(outcomes),
        ) == 0,
    decreases outcomes.len(),
{
    if outcomes.len() > 0 {
        lemma_countdown(batch, outcomes.drop_last());
        lemma_step_makes_progress(batch.run(outcomes.drop_last()), outcomes.last());
    }
}

/// A batch that has ended stays as it is, whatever is reported to it.
pub proof fn lemma_finished_is_final(batch: WriterView, outcomes: Seq<OutcomeView>)
    requires
        batch.finished(),
    ensures
        batch.run(outcomes) == batch,
    decreases outcomes.len(),
{
    if outcomes.len() > 0 {
        lemma_finished_is_final(batch, outcomes.drop_last());
    }
}

/// Once a batch has ended, recording more outcomes changes nothing.
proof fn lemma_stays_finished(batch: WriterView, outcomes: Seq<OutcomeView>, ended: int, steps: int)
    requires
        0 <= ended <= steps <= outcomes.len(),
        batch.run(outcomes.take(ended)).finished(),
    ensures
        batch.run(outcomes.take(steps)) == batch.run(outcomes.take(ended)),
    decreases steps - ended,
{
    if ended < steps {
        lemma_stays_finished(batch, outcomes, ended, steps - 1);
        lemma_run_step(batch, outcomes, steps - 1);
    }
}

/// Every path of a batch lies under its directory: it begins with the
/// directory (the current one where none is given) and one separator, and
/// goes on with the file name, unchanged, whatever that name begins with.
pub proof fn lemma_path_begins_with_directory(directory: Seq<char>, filename: Seq<char>)
    ensures
        ({
            let start = base_directory(directory) + seq!['/'];
            let path = stored_path(directory, filename);
            &&& start.len() >= 2
            &&& path.len() == start.len() + filename.len()
            &&& path.subrange(0, start.len() as int) == start
            &&& path.subrange(start.len() as int, path.len() as int) == filename
            &&& directory.len() > 0 ==> path == directory + seq!['/'] + filename
        }),
{
    reveal_strlit("/");
    reveal_strlit(".");
    assert("/"@ == seq!['/']);
    assert("."@.len() == 1);
}

/// Every batch starts by making sure that its directory exists: creating the
/// directory is the first step asked for, before any write.
pub proof fn lemma_directory_comes_first(
    attachments: Seq<AttachmentView>,
    directory: Seq<char>,
    prefix: Seq<char>,
    outcomes: Seq<OutcomeView>,
)
    ensures
        step_after(attachments, directory, prefix, outcomes, 0) == (ActionView::CreateDirectory {
            directory,
        }),
{
    assert(outcomes.take(0).len() == 0);
}

/// Where the directory cannot be created, the batch ends at once with that
/// failure: nothing is written and nothing is removed.
pub proof fn lemma_directory_failure_ends_the_batch(
    attachments: Seq<AttachmentView>,
    directory: Seq<char>,
    prefix: Seq<char>,
    outcomes: Seq<OutcomeView>,
    cause: Seq<char>,
)
    requires
        outcomes.len() >= 1,
        outcomes[0] == (OutcomeView::Failed { cause }),
    ensures
        forall|steps: int|
            1 <= steps <= outcomes.len() ==> #[trigger] step_after(
                attachments,
                directory,
                prefix,
                outcomes,
                steps,
            ) == (ActionView::Finished { result: Err(ErrorView::IoError(cause)) }),
{
    let batch = WriterView::initial(attachments, directory, prefix);
    assert(outcomes.take(0).len() == 0);
    lemma_run_step(batch, outcomes, 0);
    assert forall|steps: int| 1 <= steps <= outcomes.len() implies #[trigger] step_after(
        attachments,
        directory,
        prefix,
        outcomes,
        steps,
    ) == (ActionView::Finished { result: Err(ErrorView::IoError(cause)) }) by {
        lemma_stays_finished(batch, outcomes, 1, steps);
    }
}

/// While the directory and every write so far succeed, the attachments are
/// written one by one, in order: each under its name with the prefix in
/// front, and with exactly its bytes.
pub proof fn lemma_writes_follow_in_order(
    attachments: Seq<AttachmentView>,
    directory: Seq<char>,
    prefix: Seq<char>,
    outcomes: Seq<OutcomeView>,
    index: int,
)
    requires
        0 <= index < attachments.len(),
        all_succeeded(outcomes, index + 1),
    ensures
        step_after(attachments, directory, prefix, outcomes, index + 1) == (ActionView::WriteFile {
            path: stored_path(directory, prefix + attachments[index].name),
            bytes: attachments[index].content_bytes,
        }),
{
    lemma_progress(WriterView::initial(attachments, directory, prefix), outcomes, index);
}

/// Where the directory and every write succeed, the batch ends with the names
/// of all the files, in the order of the attachments, and stays there.
pub proof fn lemma_batch_commits(
    attachments: Seq<AttachmentView>,
    directory: Seq<char>,
    prefix: Seq<char>,
    outcomes: Seq<OutcomeView>,
)
    requires
        all_succeeded(outcomes, attachments.len() as int + 1),
    ensures
        forall|steps: int|
            attachments.len() + 1 <= steps <= outcomes.len() ==> #[trigger] step_after(
                attachments,
                directory,
                prefix,
                outcomes,
                steps,
            ) == (ActionView::Finished { result: Ok(stored_names(prefix, attachments)) }),
        stored_names(prefix, attachments).len() == attachments.len(),
        forall|i: int|
            0 <= i < attachments.len() ==> #[trigger] stored_names(prefix, attachments)[i] == prefix
                + attachments[i].name,
{
    let batch = WriterView::initial(attachments, directory, prefix);
    let count = attachments.len() as int;
    lemma_progress(batch, outcomes, count);
    assert forall|steps: int| count + 1 <= steps <= outcomes.len() implies #[trigger] step_after(
        attachments,
        directory,
        prefix,
        outcomes,
        steps,
    ) == (ActionView::Finished { result: Ok(stored_names(prefix, attachments)) }) by {
        lemma_stays_finished(batch, outcomes, count + 1, steps);
    }
}

/// Where the write of attachment `failed` is the first step to fail, the
/// batch removes the files written before it, in the order in which they were
/// written and whatever the outcome of each removal, and then ends with the
/// cause of the failed write. No later attachment is written.
pub proof fn lemma_failed_write_rolls_back(
    attachments: Seq<AttachmentView>,
    directory: Seq<char>,
    prefix: Seq<char>,
    outcomes: Seq<OutcomeView>,
    failed: int,
    cause: Seq<char>,
)
    requires
        0 <= failed < attachments.len(),
        all_succeeded(outcomes, failed + 1),
        failed + 2 <= outcomes.len(),
        outcomes[failed + 1] == (OutcomeView::Failed { cause }),
    ensures
        forall|removed: int|
            0 <= removed < failed && failed + 2 + removed <= outcomes.len() ==> #[trigger] step_after(
                attachments,
                directory,
                prefix,
                outcomes,
                failed + 2 + removed,
            ) == (ActionView::RemoveFile {
                path: stored_path(directory, prefix + attachments[removed].name),
            }),
        forall|steps: int|
            failed + 2 + failed <= steps <= outcomes.len() ==> #[trigger] step_after(
                attachments,
                directory,
                prefix,
                outcomes,
                steps,
            ) == (ActionView::Finished { result: Err(ErrorView::IoError(cause)) }),
        forall|steps: int|
            failed + 2 <= steps <= outcomes.len() ==> !(#[trigger] step_after(
                attachments,
                directory,
                prefix,
                outcomes,
                steps,
            ) is WriteFile),
{
    let batch = WriterView::initial(attachments, directory, prefix);
    assert forall|removed: int|
        0 <= removed < failed && failed + 2 + removed <= outcomes.len() implies #[trigger] step_after(
        attachments,
        directory,
        prefix,
        outcomes,
        failed + 2 + removed,
    ) == (ActionView::RemoveFile {
        path: stored_path(directory, prefix + attachments[removed].name),
    }) by {
        lemma_unwinding(batch, outcomes, failed, cause, removed);
    }
    assert forall|steps: int| failed + 2 + failed <= steps <= outcomes.len() implies #[trigger] step_after(
        attachments,
        directory,
        prefix,
        outcomes,
        steps,
    ) == (ActionView::Finished { result: Err(ErrorView::IoError(cause)) }) by {
        lemma_unwinding(batch, outcomes, failed, cause, failed);
        lemma_stays_finished(batch, outcomes, failed + 2 + failed, steps);
    }
    assert forall|steps: int| failed + 2 <= steps <= outcomes.len() implies !(#[trigger] step_after(
        attachments,
        directory,
        prefix,
        outcomes,
        steps,
    ) is WriteFile) by {
        if steps < failed + 2 + failed {
            lemma_unwinding(batch, outcomes, failed, cause, steps - failed - 2);
        }
    }
}

} // verus!

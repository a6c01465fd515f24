//! What holds of the update workflow, whatever it is told.
//!
//! Each law is stated of `step`, the function that says what the workflow
//! does with a reply, and so holds of every workflow that `advance` drives.

use crate::protocol::{ActionView, ReplyView, UpdateRequestView, WorkflowErrorView};
use crate::record::{
    all_settled, cursor, cursor_at, lemma_cursor_exists, lemma_cursor_unique, names_of,
    pending_entries, status_text, DependencyRecordView, PatchState, UpdateStateView,
};
use crate::sequencer::{ascending, is_order_of, lemma_sequenced, sequenced};
use crate::workflow::{
    consistent, cursor_state_is, patch_at_cursor, started, step, Checkpoint, Phase, WorkflowView,
};
use vstd::prelude::*;

verus! {

/// Whether a patch may go from the state `before` to the state `after` in
/// one step: it stays as it is, or a pending patch is applied or runs into
/// a conflict, or a conflict is resolved.
pub open spec fn may_become(before: PatchState, after: PatchState) -> bool {
    ||| before == after
    ||| before == PatchState::Pending && after == PatchState::Applied
    ||| before == PatchState::Pending && after == PatchState::Conflict
    ||| before == PatchState::Conflict && after == PatchState::Resolved
}

/// Whether the workflow, in this phase, is at work on the patches of an
/// update that has begun.
pub open spec fn in_patch_loop(phase: Phase) -> bool {
    match phase {
        Phase::Applying => true,
        Phase::ListingUntracked => true,
        Phase::Diffing => true,
        Phase::WritingPatch => true,
        Phase::Saving(_) => true,
        Phase::Committing(_) => true,
        Phase::Stopped => true,
        _ => false,
    }
}

/// Whether `reply` is of the kind that the workflow waits for in `phase`.
pub open spec fn answers(phase: Phase, reply: ReplyView) -> bool {
    match phase {
        Phase::Loading => reply is Record || reply is Missing || reply is Malformed
            || reply is Failed,
        Phase::CheckingTree => reply is Bytes || reply is Failed,
        Phase::ResolvingHead => reply is Text || reply is Failed,
        Phase::ProbingRepo => reply is Flag || reply is Failed,
        Phase::RemovingRepo => reply is Done || reply is Failed,
        Phase::Cloning => reply is Done || reply is Failed,
        Phase::CheckingOut => reply is Done || reply is Failed,
        Phase::Stripping => reply is Done || reply is Failed,
        Phase::ReadingBaseline => reply is Text || reply is Failed,
        Phase::ListingPatches => reply is Names || reply is Failed,
        Phase::Applying => reply is Done || reply is Failed,
        Phase::ListingUntracked => reply is Bytes || reply is Failed,
        Phase::Diffing => reply is Bytes || reply is Failed,
        Phase::WritingPatch => reply is Done || reply is Failed,
        Phase::Saving(_) => reply is Done || reply is Failed,
        Phase::Committing(_) => reply is Done || reply is Failed,
        Phase::Stopped => false,
    }
}

/// A status query only reads: the workflow ends with the report of the
/// record that was loaded, and holds that record unchanged. However often
/// the status is asked for, the update under way and the state of each of
/// its patches stay as they are.
pub proof fn lemma_status_changes_nothing(w: WorkflowView, record: DependencyRecordView)
    requires
        w.phase == Phase::Loading,
        w.request.status,
    ensures
        step(w, ReplyView::Record(record)).0.record == record,
        step(w, ReplyView::Record(record)).0.phase == Phase::Stopped,
        step(w, ReplyView::Record(record)).1 == (ActionView::Report {
            lines: status_text(record),
        }),
{
}

/// A step that ends in a failure changes nothing: once the record is
/// loaded, the workflow holds what it held before the step, and is over.
pub proof fn lemma_failure_changes_nothing(w: WorkflowView, reply: ReplyView)
    requires
        w.phase != Phase::Loading,
    ensures
        step(w, reply).1 is Fail ==> step(w, reply).0 == (WorkflowView {
            phase: Phase::Stopped,
            ..w
        }),
{
}

/// An update begins only from a clean working tree: told of no changes, the
/// workflow goes on; told anything else, it ends, and with changes in the
/// tree it says so.
pub proof fn lemma_update_needs_clean_tree(w: WorkflowView, reply: ReplyView)
    requires
        w.phase == Phase::CheckingTree,
    ensures
        reply != ReplyView::Bytes(Seq::empty()) ==> step(w, reply).1 is Fail,
        reply matches ReplyView::Bytes(changes) && changes.len() > 0 ==> step(w, reply).1 == (
        ActionView::Fail { error: WorkflowErrorView::DirtyWorkingTree }),
{
    match reply {
        ReplyView::Bytes(changes) => {
            if changes.len() == 0 {
                assert(changes =~= Seq::empty());
            }
        },
        _ => {},
    }
}

/// An update under way is taken up only where there is one: a request to
/// go on, with a record that holds no update, ends the workflow.
pub proof fn lemma_resume_needs_update(w: WorkflowView, record: DependencyRecordView)
    requires
        w.phase == Phase::Loading,
        w.request.resume,
        !w.request.status,
        record.in_progress_update is None,
    ensures
        step(w, ReplyView::Record(record)).1 == (ActionView::Fail {
            error: WorkflowErrorView::NoActiveUpdate,
        }),
{
}

/// A workflow that is over stays over, and changes nothing any more.
pub proof fn lemma_stopped_stays_stopped(w: WorkflowView, reply: ReplyView)
    requires
        w.phase == Phase::Stopped,
    ensures
        step(w, reply).0 == w,
        step(w, reply).1 == (ActionView::Fail { error: WorkflowErrorView::Protocol }),
{
}

/// The workflow is over exactly when it has handed out a report, the end
/// of the update, or a failure.
pub proof fn lemma_final_action_stops(w: WorkflowView, reply: ReplyView)
    ensures
        step(w, reply).1.is_final() <==> step(w, reply).0.phase == Phase::Stopped,
{
}

/// A patch is applied only at the cursor: it is pending, and every patch
/// before it is settled. So patches are tried in their recorded order, and
/// none is tried past one that is pending or in conflict.
pub proof fn lemma_applies_at_cursor(w: WorkflowView, reply: ReplyView)
    ensures
        match step(w, reply).1 {
            ActionView::ApplyPatch { name } => {
                &&& step(w, reply).0.phase == Phase::Applying
                &&& step(w, reply).0.record.in_progress_update matches Some(update)
                &&& cursor(update.patch_states) < update.patch_states.len()
                &&& update.patch_states[cursor(update.patch_states)].name == name
                &&& update.patch_states[cursor(update.patch_states)].state == PatchState::Pending
                &&& forall|j: int|
                    0 <= j < cursor(update.patch_states) ==> (
                    #[trigger] update.patch_states[j]).state.is_settled()
            },
            _ => true,
        },
{
    match step(w, reply).0.record.in_progress_update {
        Some(update) => {
            lemma_cursor_exists(update.patch_states);
        },
        None => {},
    }
}

/// An update begins with the patches in their order of application, all
/// pending: the names that were listed, each once, in ascending order of
/// their numbers.
pub proof fn lemma_update_begins_in_order(w: WorkflowView, names: Seq<Seq<char>>)
    requires
        w.phase == Phase::ListingPatches,
    ensures
        match step(w, ReplyView::Names(names)).1 {
            ActionView::Persist => {
                &&& step(w, ReplyView::Names(names)).0.record.in_progress_update matches Some(
                    update,
                )
                &&& w.record.in_progress_update matches Some(before)
                &&& update.baseline_revision == before.baseline_revision
                &&& update.patch_states == pending_entries(names_of(update.patch_states))
                &&& is_order_of(names_of(update.patch_states), names)
                &&& ascending(names_of(update.patch_states))
            },
            ActionView::Fail { error } => error is Protocol || sequenced(names) is Err,
            _ => false,
        },
{
    lemma_sequenced(names);
    match sequenced(names) {
        Ok(sorted) => {
            assert(names_of(pending_entries(sorted)) =~= sorted);
        },
        Err(_) => {},
    }
}

/// Once an update has begun its patches are fixed: a step leaves the update
/// with the same baseline and the same patches in the same order, or, at its
/// completion, without it.
pub proof fn lemma_patches_are_fixed(w: WorkflowView, reply: ReplyView)
    requires
        in_patch_loop(w.phase),
    ensures
        match (w.record.in_progress_update, step(w, reply).0.record.in_progress_update) {
            (Some(before), Some(after)) => {
                &&& after.baseline_revision == before.baseline_revision
                &&& names_of(after.patch_states) == names_of(before.patch_states)
            },
            (Some(before), None) => all_settled(before.patch_states),
            (None, after) => after is None,
        },
        step(w, reply).0.record.source_url == w.record.source_url,
        step(w, reply).0.record.revision == w.record.revision,
        step(w, reply).0.request == w.request,
{
    match w.record.in_progress_update {
        Some(before) => {
            lemma_cursor_exists(before.patch_states);
            match step(w, reply).0.record.in_progress_update {
                Some(after) => {
                },
                None => {},
            }
        },
        None => {},
    }
}

/// In one step at most one patch changes its state, the one at the cursor,
/// and it changes as `may_become` allows: a settled patch stays settled,
/// and a conflict is left only by being resolved.
pub proof fn lemma_states_move_forward(w: WorkflowView, reply: ReplyView)
    requires
        in_patch_loop(w.phase),
    ensures
        match (w.record.in_progress_update, step(w, reply).0.record.in_progress_update) {
            (Some(before), Some(after)) => {
                &&& after.patch_states.len() == before.patch_states.len()
                &&& forall|j: int|
                    0 <= j < before.patch_states.len() ==> may_become(
                        (#[trigger] before.patch_states[j]).state,
                        after.patch_states[j].state,
                    )
                &&& forall|j: int|
                    0 <= j < before.patch_states.len() && j != cursor(before.patch_states)
                        ==> (#[trigger] after.patch_states[j]) == before.patch_states[j]
            },
            _ => true,
        },
{
    match w.record.in_progress_update {
        Some(before) => {
            lemma_cursor_exists(before.patch_states);
        },
        None => {},
    }
}

/// A patch that applies is marked as applied, and the record is written at
/// once; the update then goes on.
pub proof fn lemma_apply_marks_applied(w: WorkflowView)
    requires
        w.phase == Phase::Applying,
        consistent(w),
    ensures
        step(w, ReplyView::Done).1 == ActionView::Persist,
        step(w, ReplyView::Done).0.phase == Phase::Saving(Checkpoint::Progress),
        step(w, ReplyView::Done).0.record.in_progress_update matches Some(after)
            && w.record.in_progress_update matches Some(before) && after.patch_states[cursor(
            before.patch_states,
        )].state == PatchState::Applied,
{
    let before = w.record.in_progress_update->0;
    lemma_cursor_exists(before.patch_states);
}

/// A patch that does not apply stops the update: it is marked as a
/// conflict, the record is written, and then the workflow ends with that
/// conflict. No later patch is tried.
pub proof fn lemma_conflict_halts(w: WorkflowView)
    requires
        w.phase == Phase::Applying,
        consistent(w),
    ensures
        step(w, ReplyView::Failed).1 == ActionView::Persist,
        step(w, ReplyView::Failed).0.phase == Phase::Saving(Checkpoint::Halt),
        cursor_state_is(step(w, ReplyView::Failed).0, PatchState::Conflict),
        patch_at_cursor(step(w, ReplyView::Failed).0) == patch_at_cursor(w),
        step(step(w, ReplyView::Failed).0, ReplyView::Done).1 == (ActionView::Fail {
            error: WorkflowErrorView::Conflict { patch: patch_at_cursor(w)->0 },
        }),
        step(step(w, ReplyView::Failed).0, ReplyView::Done).0.phase == Phase::Stopped,
{
    let before = w.record.in_progress_update->0;
    lemma_cursor_exists(before.patch_states);
    let after = step(w, ReplyView::Failed).0.record.in_progress_update->0;
    lemma_cursor_unique(after.patch_states, cursor(before.patch_states));
}

/// When the fix of a conflict has been written into the patch file, the
/// patch in conflict becomes resolved, and the record is written.
pub proof fn lemma_capture_resolves(w: WorkflowView)
    requires
        w.phase == Phase::WritingPatch,
        consistent(w),
    ensures
        step(w, ReplyView::Done).1 == ActionView::Persist,
        step(w, ReplyView::Done).0.phase == Phase::Saving(Checkpoint::Progress),
        step(w, ReplyView::Done).0.record.in_progress_update matches Some(after)
            && w.record.in_progress_update matches Some(before) && after.patch_states[cursor(
            before.patch_states,
        )].state == PatchState::Resolved,
{
    let before = w.record.in_progress_update->0;
    lemma_cursor_exists(before.patch_states);
}

/// The fix of a conflict is captured as it is: the patch file of the patch
/// in conflict is overwritten with the difference that was computed, and
/// the record stays as it is until that is done.
pub proof fn lemma_capture_writes_the_difference(w: WorkflowView, diff: Seq<u8>)
    requires
        w.phase == Phase::Diffing,
        consistent(w),
        diff.len() > 0,
    ensures
        step(w, ReplyView::Bytes(diff)).1 == (ActionView::WritePatch {
            name: patch_at_cursor(w)->0,
            contents: diff,
        }),
        patch_at_cursor(w) is Some,
        step(w, ReplyView::Bytes(diff)).0.record == w.record,
{
    let before = w.record.in_progress_update->0;
    lemma_cursor_exists(before.patch_states);
}

/// A conflict is turned into a patch only from a fix: with untracked files
/// in the vendored tree, or without any difference, the workflow ends and
/// the patch stays in conflict.
pub proof fn lemma_capture_needs_fix(w: WorkflowView, bytes: Seq<u8>)
    ensures
        w.phase == Phase::ListingUntracked && bytes.len() > 0 ==> step(
            w,
            ReplyView::Bytes(bytes),
        ) == (
            WorkflowView { phase: Phase::Stopped, ..w },
            ActionView::Fail { error: WorkflowErrorView::UntrackedFiles },
        ),
        w.phase == Phase::Diffing && bytes.len() == 0 ==> step(w, ReplyView::Bytes(bytes)) == (
            WorkflowView { phase: Phase::Stopped, ..w },
            ActionView::Fail { error: WorkflowErrorView::DiffEmpty },
        ),
{
}

/// A commit is asked for only when the record has been written, and it is
/// the record as written that is committed: nothing changes in between.
pub proof fn lemma_persist_before_commit(w: WorkflowView, reply: ReplyView)
    ensures
        step(w, reply).1 is Commit ==> w.phase is Saving && reply is Done && step(
            w,
            reply,
        ).0.record == w.record,
        step(w, reply).1 is Persist ==> step(w, reply).0.phase is Saving,
{
}

/// Whatever a step changes in the record of an update that has begun, the
/// workflow asks at once for the record to be written: no patch is marked
/// as applied, in conflict or resolved, and no update is closed, without
/// that.
pub proof fn lemma_changes_are_written(w: WorkflowView, reply: ReplyView)
    requires
        in_patch_loop(w.phase) || w.phase == Phase::ListingPatches,
    ensures
        step(w, reply).0.record != w.record ==> step(w, reply).1 is Persist,
{
}

/// The update is reported as complete only after the commit of a record
/// without an update under way; and the update leaves the record only when
/// all its patches are settled.
pub proof fn lemma_completion(w: WorkflowView, reply: ReplyView)
    requires
        consistent(w),
    ensures
        step(w, reply).1 is Finish ==> w.phase == Phase::Committing(Checkpoint::Completion)
            && step(w, reply).0.record.in_progress_update is None,
        in_patch_loop(w.phase) && w.record.in_progress_update is Some && step(
            w,
            reply,
        ).0.record.in_progress_update is None ==> all_settled(
            w.record.in_progress_update->0.patch_states,
        ),
{
    match w.record.in_progress_update {
        Some(before) => {
            lemma_cursor_exists(before.patch_states);
        },
        None => {},
    }
}

/// What the workflow holds fits its phase from the start, and after every
/// step.
pub proof fn lemma_consistency_is_kept(w: WorkflowView, reply: ReplyView)
    requires
        consistent(w),
    ensures
        consistent(step(w, reply).0),
{
    match w.record.in_progress_update {
        Some(before) => {
            lemma_cursor_exists(before.patch_states);
            let at = cursor(before.patch_states);
            if w.phase == Phase::Applying && reply is Failed && at < before.patch_states.len() {
                match step(w, reply).0.record.in_progress_update {
                    Some(after) => {
                        if before.patch_states[at].state == PatchState::Pending {
                            lemma_cursor_unique(after.patch_states, at);
                        }
                    },
                    None => {},
                }
            }
        },
        None => {},
    }
    match step(w, reply).0.record.in_progress_update {
        Some(after) => {
            lemma_cursor_exists(after.patch_states);
        },
        None => {},
    }
}

/// A workflow that begins is consistent.
pub proof fn lemma_start_is_consistent(request: UpdateRequestView)
    ensures
        consistent(started(request).0),
{
}

/// A reply of the kind that the workflow waits for is never refused as
/// unexpected.
pub proof fn lemma_expected_reply_is_taken(w: WorkflowView, reply: ReplyView)
    requires
        consistent(w),
        answers(w.phase, reply),
    ensures
        step(w, reply).1 != (ActionView::Fail { error: WorkflowErrorView::Protocol }),
{
    match w.record.in_progress_update {
        Some(before) => {
            lemma_cursor_exists(before.patch_states);
        },
        None => {},
    }
}

/// The revision that an update aims at stands in the record from the moment
/// it is known, and stays: with an explicit revision in the request, the
/// record holds that revision as soon as the working tree was found clean.
pub proof fn lemma_revision_is_pinned(w: WorkflowView, revision: Seq<char>)
    requires
        w.phase == Phase::CheckingTree,
        w.request.revision == Some(revision),
    ensures
        step(w, ReplyView::Bytes(Seq::empty())).1 is Fail || step(
            w,
            ReplyView::Bytes(Seq::empty()),
        ).0.record.revision == revision,
        step(w, ReplyView::Bytes(Seq::empty())).1 is Fail <==> revision == w.record.revision
            && !w.request.force,
{
}

/// Once the revision to move to is known, no step changes the revision or
/// the source in the record.
pub proof fn lemma_revision_stays(w: WorkflowView, reply: ReplyView)
    requires
        w.phase != Phase::Loading,
        w.phase != Phase::CheckingTree,
        w.phase != Phase::ResolvingHead,
    ensures
        step(w, reply).0.record.revision == w.record.revision,
        step(w, reply).0.record.source_url == w.record.source_url,
{
}

} // verus!

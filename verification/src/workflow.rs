//! The update workflow: moving a vendored dependency to another upstream
//! revision and re-applying its patches, one by one and in order.
//!
//! The workflow is a state machine. It is started with a request and then
//! told, reply by reply, how the action that it handed out went; each time
//! it answers with the next action. What it has decided so far stands in the
//! record that it holds, and it asks for that record to be written, and for
//! a commit, after every step: an update that was cut short can be taken up
//! again from what is on disk.

use crate::laws::lemma_consistency_is_kept;
use crate::protocol::{
    applied_message, applied_text, completed_message, completed_text, resolved_message,
    resolved_text, sequence_error, started_message, started_text, Action, ActionView, Reply,
    ReplyView, UpdateRequest, UpdateRequestView, WorkflowError, WorkflowErrorView,
};
use crate::record::{
    cursor, pending_entries, status_text, with_state, DependencyRecord, DependencyRecordView,
    PatchState, UpdateState, UpdateStateView,
};
use crate::sequencer::{order, sequenced};
use crate::text::{first_word, first_word_of, trim, trimmed};
use vstd::prelude::*;

verus! {

/// What the checkpoint under way closes.
#[derive(Debug, Clone, Copy, PartialEq, Eq, Structural)]
pub enum Checkpoint {
    /// A step after which the update goes on.
    Progress,
    /// A conflict: the update stops once the record is written.
    Halt,
    /// The update itself.
    Completion,
}

/// Where the workflow stands: what it waits to be told.
#[derive(Debug, Clone, Copy, PartialEq, Eq, Structural)]
pub enum Phase {
    /// The record of the dependency.
    Loading,
    /// The changes in the working tree: a clean tree has none.
    CheckingTree,
    /// The head of the remote's default branch.
    ResolvingHead,
    /// Whether the vendored tree exists.
    ProbingRepo,
    /// That the vendored tree was removed.
    RemovingRepo,
    /// That upstream was cloned.
    Cloning,
    /// That the revision was checked out.
    CheckingOut,
    /// That the clone was stripped of its metadata.
    Stripping,
    /// The current revision of the monorepository.
    ReadingBaseline,
    /// The names of the patch files.
    ListingPatches,
    /// Whether the patch at the cursor applied.
    Applying,
    /// The untracked files in the vendored tree.
    ListingUntracked,
    /// How the vendored tree differs from what was committed last.
    Diffing,
    /// That the patch file at the cursor was overwritten.
    WritingPatch,
    /// That the record was written.
    Saving(Checkpoint),
    /// That the commit was made.
    Committing(Checkpoint),
    /// Nothing: the workflow is over.
    Stopped,
}

/// The update workflow of one dependency.
#[derive(Debug, Clone, PartialEq, Eq)]
pub struct Workflow {
    /// What was asked for.
    pub request: UpdateRequest,
    /// The record of the dependency as the workflow has it. Before the
    /// record is loaded it is empty.
    pub record: DependencyRecord,
    /// The message of the commit that closes the checkpoint under way.
    pub message: String,
    /// Where the workflow stands.
    pub phase: Phase,
}

/// What a `Workflow` holds.
pub struct WorkflowView {
    pub request: UpdateRequestView,
    pub record: DependencyRecordView,
    pub message: Seq<char>,
    pub phase: Phase,
}

impl View for Workflow {
    type V = WorkflowView;

    open spec fn view(&self) -> WorkflowView {
        WorkflowView {
            request: self.request@,
            record: self.record@,
            message: self.message@,
            phase: self.phase,
        }
    }
}

/// The record that a workflow holds before it has loaded one.
pub open spec fn empty_record() -> DependencyRecordView {
    DependencyRecordView {
        source_url: Seq::empty(),
        revision: Seq::empty(),
        in_progress_update: None,
    }
}

/// A workflow that begins: it asks for the record.
pub open spec fn started(request: UpdateRequestView) -> (WorkflowView, ActionView) {
    (
        WorkflowView {
            request,
            record: empty_record(),
            message: Seq::empty(),
            phase: Phase::Loading,
        },
        ActionView::LoadRecord,
    )
}

/// The workflow stops on `error`.
pub open spec fn halted(w: WorkflowView, error: WorkflowErrorView) -> (WorkflowView, ActionView) {
    (WorkflowView { phase: Phase::Stopped, ..w }, ActionView::Fail { error })
}

/// The workflow goes to `phase` and hands out `action`.
pub open spec fn moved(w: WorkflowView, phase: Phase, action: ActionView) -> (
    WorkflowView,
    ActionView,
) {
    (WorkflowView { phase, ..w }, action)
}

/// The workflow opens a checkpoint: it asks for its record to be written,
/// and keeps `message` for the commit that follows.
pub open spec fn saved(w: WorkflowView, checkpoint: Checkpoint, message: Seq<char>) -> (
    WorkflowView,
    ActionView,
) {
    (WorkflowView { phase: Phase::Saving(checkpoint), message, ..w }, ActionView::Persist)
}

/// `w` with `update` as the update under way.
pub open spec fn with_update(w: WorkflowView, update: Option<UpdateStateView>) -> WorkflowView {
    WorkflowView {
        record: DependencyRecordView { in_progress_update: update, ..w.record },
        ..w
    }
}

/// The workflow goes on with the update under way, from the cursor: it
/// applies the patch there if that is pending, captures the fix of the
/// conflict there if it is not, and completes the update if every patch is
/// settled.
pub open spec fn resumed(w: WorkflowView) -> (WorkflowView, ActionView) {
    match w.record.in_progress_update {
        None => halted(w, WorkflowErrorView::NoActiveUpdate),
        Some(update) => {
            let at = cursor(update.patch_states);
            if at >= update.patch_states.len() {
                saved(with_update(w, None), Checkpoint::Completion, completed_text(w.request.path))
            } else if update.patch_states[at].state == PatchState::Pending {
                moved(
                    w,
                    Phase::Applying,
                    ActionView::ApplyPatch { name: update.patch_states[at].name },
                )
            } else {
                moved(w, Phase::ListingUntracked, ActionView::ListUntracked)
            }
        },
    }
}

/// The message of the commit that records that the patch `name`, at place
/// `at` of `count`, went to the state `to`.
pub open spec fn settle_text(
    to: PatchState,
    at: int,
    count: nat,
    name: Seq<char>,
    path: Seq<char>,
) -> Seq<char> {
    match to {
        PatchState::Applied => applied_text((at + 1) as nat, count, name, path),
        PatchState::Resolved => resolved_text((at + 1) as nat, count, name, path),
        _ => Seq::empty(),
    }
}

/// The patch at the cursor goes from the state `from` to the state `to`,
/// and the workflow opens a checkpoint. No other patch changes.
pub open spec fn settled(w: WorkflowView, from: PatchState, to: PatchState, checkpoint: Checkpoint) -> (
    WorkflowView,
    ActionView,
) {
    match w.record.in_progress_update {
        None => halted(w, WorkflowErrorView::Protocol),
        Some(update) => {
            let at = cursor(update.patch_states);
            if at < update.patch_states.len() && update.patch_states[at].state == from {
                saved(
                    with_update(
                        w,
                        Some(
                            UpdateStateView {
                                patch_states: with_state(update.patch_states, at, to),
                                ..update
                            },
                        ),
                    ),
                    checkpoint,
                    settle_text(
                        to,
                        at,
                        update.patch_states.len(),
                        update.patch_states[at].name,
                        w.request.path,
                    ),
                )
            } else {
                halted(w, WorkflowErrorView::Protocol)
            }
        },
    }
}

/// The workflow sets out to replace the vendored tree by the revision in
/// its record: it asks for the old tree to be removed.
pub open spec fn fetching(w: WorkflowView) -> (WorkflowView, ActionView) {
    moved(w, Phase::RemovingRepo, ActionView::RemoveRepo)
}

/// The workflow has `target` as the revision to move to: it stops if that
/// is the revision already vendored, unless forced; else it takes it into
/// its record and goes on to replace the vendored tree, which must exist
/// unless forced.
pub open spec fn aimed(w: WorkflowView, target: Seq<char>) -> (WorkflowView, ActionView) {
    if target == w.record.revision && !w.request.force {
        halted(w, WorkflowErrorView::AlreadyUpToDate)
    } else {
        let next = WorkflowView {
            record: DependencyRecordView { revision: target, ..w.record },
            ..w
        };
        if w.request.force {
            fetching(next)
        } else {
            moved(next, Phase::ProbingRepo, ActionView::ProbeRepo)
        }
    }
}

/// The workflow has loaded `record`: it reports, goes on with the update
/// under way, or begins one, as the request says.
pub open spec fn loaded(w: WorkflowView, record: DependencyRecordView) -> (
    WorkflowView,
    ActionView,
) {
    let next = WorkflowView { record, ..w };
    if w.request.status {
        moved(next, Phase::Stopped, ActionView::Report { lines: status_text(record) })
    } else if w.request.resume {
        resumed(next)
    } else {
        moved(next, Phase::CheckingTree, ActionView::CheckClean)
    }
}

/// The name of the patch at the cursor of the update under way, if there is
/// one.
pub open spec fn patch_at_cursor(w: WorkflowView) -> Option<Seq<char>> {
    match w.record.in_progress_update {
        None => None,
        Some(update) => {
            let at = cursor(update.patch_states);
            if at < update.patch_states.len() {
                Some(update.patch_states[at].name)
            } else {
                None
            }
        },
    }
}

/// Whether the state of the patch at the cursor of the update under way is
/// `state`.
pub open spec fn cursor_state_is(w: WorkflowView, state: PatchState) -> bool {
    match w.record.in_progress_update {
        None => false,
        Some(update) => {
            let at = cursor(update.patch_states);
            at < update.patch_states.len() && update.patch_states[at].state == state
        },
    }
}

/// Whether what the workflow holds fits the phase that it is in: it is at
/// work on a patch only where that patch is at the cursor and in the state
/// that the work starts from, and it closes an update only where none is
/// left in its record.
pub open spec fn consistent(w: WorkflowView) -> bool {
    match w.phase {
        Phase::ListingPatches => w.record.in_progress_update is Some,
        Phase::Applying => cursor_state_is(w, PatchState::Pending),
        Phase::ListingUntracked => cursor_state_is(w, PatchState::Conflict),
        Phase::Diffing => cursor_state_is(w, PatchState::Conflict),
        Phase::WritingPatch => cursor_state_is(w, PatchState::Conflict),
        Phase::Saving(Checkpoint::Halt) => cursor_state_is(w, PatchState::Conflict),
        Phase::Saving(Checkpoint::Progress) => w.record.in_progress_update is Some,
        Phase::Committing(Checkpoint::Progress) => w.record.in_progress_update is Some,
        Phase::Saving(Checkpoint::Completion) => w.record.in_progress_update is None,
        Phase::Committing(Checkpoint::Completion) => w.record.in_progress_update is None,
        Phase::Committing(Checkpoint::Halt) => false,
        _ => true,
    }
}

/// What the workflow `w` does when it is told `reply`: where it goes, and
/// the action that it hands out.
pub open spec fn step(w: WorkflowView, reply: ReplyView) -> (WorkflowView, ActionView) {
    match w.phase {
        Phase::Stopped => halted(w, WorkflowErrorView::Protocol),
        Phase::Applying => match reply {
            ReplyView::Done => settled(
                w,
                PatchState::Pending,
                PatchState::Applied,
                Checkpoint::Progress,
            ),
            ReplyView::Failed => settled(
                w,
                PatchState::Pending,
                PatchState::Conflict,
                Checkpoint::Halt,
            ),
            _ => halted(w, WorkflowErrorView::Protocol),
        },
        _ => if reply is Failed {
            halted(w, WorkflowErrorView::External)
        } else {
            answered(w, reply)
        },
    }
}

/// What the workflow does in a phase in which a failed action is the end
/// of it, when the action did not fail.
pub open spec fn answered(w: WorkflowView, reply: ReplyView) -> (WorkflowView, ActionView) {
    match (w.phase, reply) {
        (Phase::Loading, ReplyView::Record(record)) => loaded(w, record),
        (Phase::Loading, ReplyView::Missing) => halted(w, WorkflowErrorView::NotFound),
        (Phase::Loading, ReplyView::Malformed) => halted(w, WorkflowErrorView::Corrupt),
        (Phase::CheckingTree, ReplyView::Bytes(changes)) => if changes.len() > 0 {
            halted(w, WorkflowErrorView::DirtyWorkingTree)
        } else {
            match w.request.revision {
                Some(revision) => aimed(w, revision),
                None => moved(
                    w,
                    Phase::ResolvingHead,
                    ActionView::ResolveRemoteHead { url: w.record.source_url },
                ),
            }
        },
        (Phase::ResolvingHead, ReplyView::Text(listing)) => match first_word(listing) {
            Some(head) => aimed(w, head),
            None => halted(w, WorkflowErrorView::External),
        },
        (Phase::ProbingRepo, ReplyView::Flag(found)) => if found {
            fetching(w)
        } else {
            halted(w, WorkflowErrorView::RepoMissing)
        },
        (Phase::RemovingRepo, ReplyView::Done) => moved(
            w,
            Phase::Cloning,
            ActionView::Clone { url: w.record.source_url },
        ),
        (Phase::Cloning, ReplyView::Done) => moved(
            w,
            Phase::CheckingOut,
            ActionView::Checkout { revision: w.record.revision },
        ),
        (Phase::CheckingOut, ReplyView::Done) => moved(
            w,
            Phase::Stripping,
            ActionView::StripMetadata,
        ),
        (Phase::Stripping, ReplyView::Done) => moved(
            w,
            Phase::ReadingBaseline,
            ActionView::ResolveCurrentRevision,
        ),
        (Phase::ReadingBaseline, ReplyView::Text(revision)) => moved(
            with_update(
                w,
                Some(
                    UpdateStateView {
                        baseline_revision: trimmed(revision),
                        patch_states: Seq::empty(),
                    },
                ),
            ),
            Phase::ListingPatches,
            ActionView::ListPatches,
        ),
        (Phase::ListingPatches, ReplyView::Names(names)) => match w.record.in_progress_update {
            None => halted(w, WorkflowErrorView::Protocol),
            Some(update) => match sequenced(names) {
                Ok(sorted) => saved(
                    with_update(
                        w,
                        Some(
                            UpdateStateView { patch_states: pending_entries(sorted), ..update },
                        ),
                    ),
                    Checkpoint::Progress,
                    started_text(w.request.path, w.record.revision),
                ),
                Err(error) => halted(w, sequence_error(error)),
            },
        },
        (Phase::ListingUntracked, ReplyView::Bytes(listing)) => if listing.len() > 0 {
            halted(w, WorkflowErrorView::UntrackedFiles)
        } else {
            moved(w, Phase::Diffing, ActionView::Diff)
        },
        (Phase::Diffing, ReplyView::Bytes(diff)) => if diff.len() == 0 {
            halted(w, WorkflowErrorView::DiffEmpty)
        } else {
            match patch_at_cursor(w) {
                Some(name) => moved(
                    w,
                    Phase::WritingPatch,
                    ActionView::WritePatch { name, contents: diff },
                ),
                None => halted(w, WorkflowErrorView::Protocol),
            }
        },
        (Phase::WritingPatch, ReplyView::Done) => settled(
            w,
            PatchState::Conflict,
            PatchState::Resolved,
            Checkpoint::Progress,
        ),
        (Phase::Saving(Checkpoint::Halt), ReplyView::Done) => match patch_at_cursor(w) {
            Some(patch) => halted(w, WorkflowErrorView::Conflict { patch }),
            None => halted(w, WorkflowErrorView::Protocol),
        },
        (Phase::Saving(checkpoint), ReplyView::Done) => moved(
            w,
            Phase::Committing(checkpoint),
            ActionView::Commit { message: w.message },
        ),
        (Phase::Committing(Checkpoint::Completion), ReplyView::Done) => moved(
            w,
            Phase::Stopped,
            ActionView::Finish,
        ),
        (Phase::Committing(_), ReplyView::Done) => resumed(w),
        _ => halted(w, WorkflowErrorView::Protocol),
    }
}

/// Begins the update that `request` asks for: the workflow, and its first
/// action, which is to read the record of the dependency.
pub fn update(request: UpdateRequest) -> (res: (Workflow, Action))
    ensures
        (res.0@, res.1@) == started(request@),
        consistent(res.0@),
{
    let record = DependencyRecord {
        source_url: String::new(),
        revision: String::new(),
        in_progress_update: None,
    };
    (
        Workflow { request, record, message: String::new(), phase: Phase::Loading },
        Action::LoadRecord,
    )
}

impl Workflow {
    /// Takes the reply to the action that was handed out last, and hands out
    /// the next action. After an action that ends the workflow every reply
    /// is answered by a failure.
    pub fn advance(self, reply: Reply) -> (res: (Workflow, Action))
        ensures
            (res.0@, res.1@) == step(self@, reply@),
            consistent(self@) ==> consistent(res.0@),
    {
        proof {
            if consistent(self@) {
                lemma_consistency_is_kept(self@, reply@);
            }
        }
        match self.phase {
            Phase::Stopped => self.halt(WorkflowError::Protocol),
            Phase::Applying => match reply {
                Reply::Done => self.settle(
                    PatchState::Pending,
                    PatchState::Applied,
                    Checkpoint::Progress,
                ),
                Reply::Failed => self.settle(
                    PatchState::Pending,
                    PatchState::Conflict,
                    Checkpoint::Halt,
                ),
                _ => self.halt(WorkflowError::Protocol),
            },
            _ => match reply {
                Reply::Failed => self.halt(WorkflowError::External),
                other => self.answer(other),
            },
        }
    }

    /// Whether the workflow is over.
    pub fn is_over(&self) -> (res: bool)
        ensures
            res == (self@.phase == Phase::Stopped),
    {
        self.phase == Phase::Stopped
    }

    fn answer(self, reply: Reply) -> (res: (Workflow, Action))
        ensures
            (res.0@, res.1@) == answered(self@, reply@),
    {
        match (self.phase, reply) {
            (Phase::Loading, Reply::Record(record)) => self.load(record),
            (Phase::Loading, Reply::Missing) => self.halt(WorkflowError::NotFound),
            (Phase::Loading, Reply::Malformed) => self.halt(WorkflowError::Corrupt),
            (Phase::CheckingTree, Reply::Bytes(changes)) => {
                if changes.len() > 0 {
                    self.halt(WorkflowError::DirtyWorkingTree)
                } else {
                    match &self.request.revision {
                        Some(revision) => {
                            let target = revision.clone();
                            self.aim(target)
                        },
                        None => {
                            let url = self.record.source_url.clone();
                            self.go(Phase::ResolvingHead, Action::ResolveRemoteHead { url })
                        },
                    }
                }
            },
            (Phase::ResolvingHead, Reply::Text(listing)) => {
                match first_word_of(listing.as_str()) {
                    Some(head) => self.aim(head),
                    None => self.halt(WorkflowError::External),
                }
            },
            (Phase::ProbingRepo, Reply::Flag(found)) => {
                if found {
                    self.fetch()
                } else {
                    self.halt(WorkflowError::RepoMissing)
                }
            },
            (Phase::RemovingRepo, Reply::Done) => {
                let url = self.record.source_url.clone();
                self.go(Phase::Cloning, Action::Clone { url })
            },
            (Phase::Cloning, Reply::Done) => {
                let revision = self.record.revision.clone();
                self.go(Phase::CheckingOut, Action::Checkout { revision })
            },
            (Phase::CheckingOut, Reply::Done) => self.go(Phase::Stripping, Action::StripMetadata),
            (Phase::Stripping, Reply::Done) => self.go(
                Phase::ReadingBaseline,
                Action::ResolveCurrentRevision,
            ),
            (Phase::ReadingBaseline, Reply::Text(revision)) => {
                let update = UpdateState {
                    baseline_revision: trim(revision.as_str()),
                    patch_states: Vec::new(),
                };
                assert(update@.patch_states =~= Seq::empty());
                self.put_update(Some(update)).go(Phase::ListingPatches, Action::ListPatches)
            },
            (Phase::ListingPatches, Reply::Names(names)) => self.snapshot(names),
            (Phase::ListingUntracked, Reply::Bytes(listing)) => {
                if listing.len() > 0 {
                    self.halt(WorkflowError::UntrackedFiles)
                } else {
                    self.go(Phase::Diffing, Action::Diff)
                }
            },
            (Phase::Diffing, Reply::Bytes(diff)) => {
                if diff.len() == 0 {
                    self.halt(WorkflowError::DiffEmpty)
                } else {
                    match self.patch_at_cursor() {
                        Some(name) => self.go(
                            Phase::WritingPatch,
                            Action::WritePatch { name, contents: diff },
                        ),
                        None => self.halt(WorkflowError::Protocol),
                    }
                }
            },
            (Phase::WritingPatch, Reply::Done) => self.settle(
                PatchState::Conflict,
                PatchState::Resolved,
                Checkpoint::Progress,
            ),
            (Phase::Saving(Checkpoint::Halt), Reply::Done) => {
                match self.patch_at_cursor() {
                    Some(patch) => self.halt(WorkflowError::Conflict { patch }),
                    None => self.halt(WorkflowError::Protocol),
                }
            },
            (Phase::Saving(checkpoint), Reply::Done) => {
                let message = self.message.clone();
                self.go(Phase::Committing(checkpoint), Action::Commit { message })
            },
            (Phase::Committing(Checkpoint::Completion), Reply::Done) => self.go(
                Phase::Stopped,
                Action::Finish,
            ),
            (Phase::Committing(_), Reply::Done) => self.resume(),
            _ => self.halt(WorkflowError::Protocol),
        }
    }

    fn halt(self, error: WorkflowError) -> (res: (Workflow, Action))
        ensures
            (res.0@, res.1@) == halted(self@, error@),
    {
        self.go(Phase::Stopped, Action::Fail { error })
    }

    fn go(self, phase: Phase, action: Action) -> (res: (Workflow, Action))
        ensures
            (res.0@, res.1@) == moved(self@, phase, action@),
    {
        let Workflow { request, record, message, phase: _ } = self;
        (Workflow { request, record, message, phase }, action)
    }

    fn save(self, checkpoint: Checkpoint, message: String) -> (res: (Workflow, Action))
        ensures
            (res.0@, res.1@) == saved(self@, checkpoint, message@),
    {
        let Workflow { request, record, message: _, phase: _ } = self;
        (Workflow { request, record, message, phase: Phase::Saving(checkpoint) }, Action::Persist)
    }

    fn put_update(self, update: Option<UpdateState>) -> (next: Workflow)
        ensures
            next@ == with_update(
                self@,
                match update {
                    Some(u) => Some(u@),
                    None => None,
                },
            ),
    {
        let Workflow { request, record, message, phase } = self;
        let DependencyRecord { source_url, revision, in_progress_update: _ } = record;
        Workflow {
            request,
            record: DependencyRecord { source_url, revision, in_progress_update: update },
            message,
            phase,
        }
    }

    fn patch_at_cursor(&self) -> (res: Option<String>)
        ensures
            match res {
                Some(name) => patch_at_cursor(self@) == Some(name@),
                None => patch_at_cursor(self@) is None,
            },
    {
        match &self.record.in_progress_update {
            None => None,
            Some(update) => {
                let at = update.cursor();
                if at < update.patch_states.len() {
                    Some(update.patch_states[at].name.clone())
                } else {
                    None
                }
            },
        }
    }

    fn resume(self) -> (res: (Workflow, Action))
        ensures
            (res.0@, res.1@) == resumed(self@),
    {
        let next: Option<(String, PatchState)> = match &self.record.in_progress_update {
            None => { return self.halt(WorkflowError::NoActiveUpdate); },
            Some(update) => {
                let at = update.cursor();
                if at < update.patch_states.len() {
                    Some((update.patch_states[at].name.clone(), update.patch_states[at].state))
                } else {
                    None
                }
            },
        };
        match next {
            None => {
                let message = completed_message(self.request.path.as_str());
                self.put_update(None).save(Checkpoint::Completion, message)
            },
            Some((name, state)) => {
                if state == PatchState::Pending {
                    self.go(Phase::Applying, Action::ApplyPatch { name })
                } else {
                    self.go(Phase::ListingUntracked, Action::ListUntracked)
                }
            },
        }
    }

    fn settle(self, from: PatchState, to: PatchState, checkpoint: Checkpoint) -> (res: (
        Workflow,
        Action,
    ))
        ensures
            (res.0@, res.1@) == settled(self@, from, to, checkpoint),
    {
        let Workflow { request, record, message, phase } = self;
        let DependencyRecord { source_url, revision, in_progress_update } = record;
        match in_progress_update {
            None => {
                let same = Workflow {
                    request,
                    record: DependencyRecord { source_url, revision, in_progress_update: None },
                    message,
                    phase,
                };
                same.halt(WorkflowError::Protocol)
            },
            Some(update) => {
                let mut update = update;
                let at = update.cursor();
                let count = update.patch_states.len();
                if at < count && update.patch_states[at].state == from {
                    let note = match to {
                        PatchState::Applied => applied_message(
                            at + 1,
                            count,
                            update.patch_states[at].name.as_str(),
                            request.path.as_str(),
                        ),
                        PatchState::Resolved => resolved_message(
                            at + 1,
                            count,
                            update.patch_states[at].name.as_str(),
                            request.path.as_str(),
                        ),
                        _ => String::new(),
                    };
                    update.set_state(at, to);
                    let next = Workflow {
                        request,
                        record: DependencyRecord {
                            source_url,
                            revision,
                            in_progress_update: Some(update),
                        },
                        message,
                        phase,
                    };
                    next.save(checkpoint, note)
                } else {
                    assert(at < count ==> update@.patch_states[at as int]
                        == update.patch_states@[at as int]@);
                    let same = Workflow {
                        request,
                        record: DependencyRecord {
                            source_url,
                            revision,
                            in_progress_update: Some(update),
                        },
                        message,
                        phase,
                    };
                    same.halt(WorkflowError::Protocol)
                }
            },
        }
    }

    fn fetch(self) -> (res: (Workflow, Action))
        ensures
            (res.0@, res.1@) == fetching(self@),
    {
        self.go(Phase::RemovingRepo, Action::RemoveRepo)
    }

    fn aim(self, target: String) -> (res: (Workflow, Action))
        ensures
            (res.0@, res.1@) == aimed(self@, target@),
    {
        if target == self.record.revision && !self.request.force {
            return self.halt(WorkflowError::AlreadyUpToDate);
        }
        let Workflow { request, record, message, phase } = self;
        let DependencyRecord { source_url, revision: _, in_progress_update } = record;
        let next = Workflow {
            request,
            record: DependencyRecord { source_url, revision: target, in_progress_update },
            message,
            phase,
        };
        if next.request.force {
            next.fetch()
        } else {
            next.go(Phase::ProbingRepo, Action::ProbeRepo)
        }
    }

    fn load(self, record: DependencyRecord) -> (res: (Workflow, Action))
        ensures
            (res.0@, res.1@) == loaded(self@, record@),
    {
        let Workflow { request, record: _, message, phase } = self;
        let next = Workflow { request, record, message, phase };
        if next.request.status {
            let lines = next.record.status();
            next.go(Phase::Stopped, Action::Report { lines })
        } else if next.request.resume {
            next.resume()
        } else {
            next.go(Phase::CheckingTree, Action::CheckClean)
        }
    }

    fn snapshot(self, names: Vec<String>) -> (res: (Workflow, Action))
        requires
            self@.phase == Phase::ListingPatches,
        ensures
            (res.0@, res.1@) == answered(self@, ReplyView::Names(names.deep_view())),
    {
        let Workflow { request, record, message, phase } = self;
        let DependencyRecord { source_url, revision, in_progress_update } = record;
        match in_progress_update {
            None => {
                let same = Workflow {
                    request,
                    record: DependencyRecord { source_url, revision, in_progress_update: None },
                    message,
                    phase,
                };
                same.halt(WorkflowError::Protocol)
            },
            Some(update) => {
                match order(&names) {
                    Ok(sorted) => {
                        let note = started_message(request.path.as_str(), revision.as_str());
                        let UpdateState { baseline_revision, patch_states: _ } = update;
                        let begun = UpdateState::begin(baseline_revision, &sorted);
                        let next = Workflow {
                            request,
                            record: DependencyRecord {
                                source_url,
                                revision,
                                in_progress_update: Some(begun),
                            },
                            message,
                            phase,
                        };
                        next.save(Checkpoint::Progress, note)
                    },
                    Err(error) => {
                        let same = Workflow {
                            request,
                            record: DependencyRecord {
                                source_url,
                                revision,
                                in_progress_update: Some(update),
                            },
                            message,
                            phase,
                        };
                        same.halt(WorkflowError::from_sequence(error))
                    },
                }
            },
        }
    }
}

} // verus!

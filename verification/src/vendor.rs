//! Vendoring a dependency for the first time: upstream is cloned to where
//! the dependency is to go, and a record is written beside the clone.
//!
//! Like the update, this is a workflow that hands out actions and takes
//! replies. It makes no commit: that is left to the user.

use crate::protocol::{Action, ActionView, Reply, ReplyView, WorkflowError, WorkflowErrorView};
use crate::record::{DependencyRecord, DependencyRecordView};
use crate::text::{trim, trimmed};
use vstd::prelude::*;

verus! {

/// What the user asks to be vendored.
#[derive(Debug, Clone, PartialEq, Eq)]
pub struct VendorRequest {
    /// Where upstream is.
    pub url: String,
    /// The revision to vendor; without one, what upstream has checked out
    /// by default.
    pub revision: Option<String>,
    /// The canonical path where the dependency is to go.
    pub path: String,
}

/// What a `VendorRequest` holds.
pub struct VendorRequestView {
    pub url: Seq<char>,
    pub revision: Option<Seq<char>>,
    pub path: Seq<char>,
}

impl View for VendorRequest {
    type V = VendorRequestView;

    open spec fn view(&self) -> VendorRequestView {
        VendorRequestView {
            url: self.url@,
            revision: match self.revision {
                Some(revision) => Some(revision@),
                None => None,
            },
            path: self.path@,
        }
    }
}

/// Where the vendoring stands: what it waits to be told.
#[derive(Debug, Clone, Copy, PartialEq, Eq, Structural)]
pub enum VendorPhase {
    /// Whether anything exists at the dependency's path.
    ProbingTarget,
    /// That upstream was cloned.
    Cloning,
    /// That the revision was checked out.
    CheckingOut,
    /// The revision that the clone has checked out.
    ReadingHead,
    /// That the clone was stripped of its metadata.
    Stripping,
    /// That the record was written.
    Saving,
    /// Nothing: the workflow is over.
    Stopped,
}

/// The workflow that vendors one dependency.
#[derive(Debug, Clone, PartialEq, Eq)]
pub struct Vendoring {
    /// What was asked for.
    pub request: VendorRequest,
    /// The record of the dependency, as far as it is known.
    pub record: DependencyRecord,
    /// Where the workflow stands.
    pub phase: VendorPhase,
}

/// What a `Vendoring` holds.
pub struct VendoringView {
    pub request: VendorRequestView,
    pub record: DependencyRecordView,
    pub phase: VendorPhase,
}

impl View for Vendoring {
    type V = VendoringView;

    open spec fn view(&self) -> VendoringView {
        VendoringView { request: self.request@, record: self.record@, phase: self.phase }
    }
}

/// A vendoring that begins: it holds a record of the source alone, and asks
/// whether the place for the dependency is taken.
pub open spec fn vendoring_started(request: VendorRequestView) -> (VendoringView, ActionView) {
    (
        VendoringView {
            request,
            record: DependencyRecordView {
                source_url: request.url,
                revision: Seq::empty(),
                in_progress_update: None,
            },
            phase: VendorPhase::ProbingTarget,
        },
        ActionView::ProbeTarget,
    )
}

/// The vendoring stops on `error`.
pub open spec fn vendoring_halted(w: VendoringView, error: WorkflowErrorView) -> (
    VendoringView,
    ActionView,
) {
    (VendoringView { phase: VendorPhase::Stopped, ..w }, ActionView::Fail { error })
}

/// The vendoring goes to `phase` and hands out `action`.
pub open spec fn vendoring_moved(w: VendoringView, phase: VendorPhase, action: ActionView) -> (
    VendoringView,
    ActionView,
) {
    (VendoringView { phase, ..w }, action)
}

/// `w` with `revision` in its record.
pub open spec fn with_revision(w: VendoringView, revision: Seq<char>) -> VendoringView {
    VendoringView { record: DependencyRecordView { revision, ..w.record }, ..w }
}

/// What the vendoring `w` does when it is told `reply`: where it goes, and
/// the action that it hands out.
pub open spec fn vendor_step(w: VendoringView, reply: ReplyView) -> (VendoringView, ActionView) {
    if w.phase == VendorPhase::Stopped {
        vendoring_halted(w, WorkflowErrorView::Protocol)
    } else if reply is Failed {
        vendoring_halted(w, WorkflowErrorView::External)
    } else {
        match (w.phase, reply) {
            (VendorPhase::ProbingTarget, ReplyView::Flag(taken)) => if taken {
                vendoring_halted(w, WorkflowErrorView::TargetExists)
            } else {
                vendoring_moved(w, VendorPhase::Cloning, ActionView::Clone { url: w.request.url })
            },
            (VendorPhase::Cloning, ReplyView::Done) => match w.request.revision {
                Some(revision) => vendoring_moved(
                    with_revision(w, revision),
                    VendorPhase::CheckingOut,
                    ActionView::Checkout { revision },
                ),
                None => vendoring_moved(w, VendorPhase::ReadingHead, ActionView::ResolveCloneHead),
            },
            (VendorPhase::CheckingOut, ReplyView::Done) => vendoring_moved(
                w,
                VendorPhase::Stripping,
                ActionView::StripMetadata,
            ),
            (VendorPhase::ReadingHead, ReplyView::Text(head)) => vendoring_moved(
                with_revision(w, trimmed(head)),
                VendorPhase::Stripping,
                ActionView::StripMetadata,
            ),
            (VendorPhase::Stripping, ReplyView::Done) => vendoring_moved(
                w,
                VendorPhase::Saving,
                ActionView::Persist,
            ),
            (VendorPhase::Saving, ReplyView::Done) => vendoring_moved(
                w,
                VendorPhase::Stopped,
                ActionView::Finish,
            ),
            _ => vendoring_halted(w, WorkflowErrorView::Protocol),
        }
    }
}

/// Whether the record that the vendoring holds is the one to write in the
/// end, as far as the phase lets it be known: it names the source that was
/// asked for and no update, and, once a revision was asked for and checked
/// out, that revision; the clone is asked for its revision only where none
/// was asked for.
pub open spec fn vendoring_consistent(w: VendoringView) -> bool {
    &&& w.record.source_url == w.request.url
    &&& w.record.in_progress_update is None
    &&& w.phase == VendorPhase::ReadingHead ==> w.request.revision is None
    &&& (w.phase == VendorPhase::CheckingOut || w.phase == VendorPhase::Stripping || w.phase
        == VendorPhase::Saving) ==> (w.request.revision matches Some(revision)
        ==> w.record.revision == revision)
}

/// The record of a vendoring is consistent from the start, and after every
/// step.
pub proof fn lemma_vendoring_consistency_is_kept(w: VendoringView, reply: ReplyView)
    requires
        vendoring_consistent(w),
    ensures
        vendoring_consistent(vendor_step(w, reply).0),
{
}

/// A vendoring that begins is consistent.
pub proof fn lemma_vendoring_start_is_consistent(request: VendorRequestView)
    ensures
        vendoring_consistent(vendoring_started(request).0),
{
}

/// The record that is written for a new dependency names the source that
/// was asked for and no update under way; where a revision was asked for,
/// it names that revision. Nothing is cloned to a place that is taken.
pub proof fn lemma_vendored_record(w: VendoringView, reply: ReplyView)
    requires
        vendoring_consistent(w),
    ensures
        vendor_step(w, reply).1 is Persist ==> {
            &&& vendor_step(w, reply).0.record.source_url == w.request.url
            &&& vendor_step(w, reply).0.record.in_progress_update is None
            &&& w.request.revision matches Some(revision) ==> vendor_step(
                w,
                reply,
            ).0.record.revision == revision
        },
        vendor_step(w, reply).1 is Clone ==> w.phase == VendorPhase::ProbingTarget && reply
            == ReplyView::Flag(false),
{
}

/// Begins the vendoring that `request` asks for: the workflow, and its first
/// action, which is to find out whether the place for the dependency is
/// taken.
pub fn vendor(request: VendorRequest) -> (res: (Vendoring, Action))
    ensures
        (res.0@, res.1@) == vendoring_started(request@),
        vendoring_consistent(res.0@),
{
    let record = DependencyRecord {
        source_url: request.url.clone(),
        revision: String::new(),
        in_progress_update: None,
    };
    (Vendoring { request, record, phase: VendorPhase::ProbingTarget }, Action::ProbeTarget)
}

impl Vendoring {
    /// Takes the reply to the action that was handed out last, and hands out
    /// the next action.
    pub fn advance(self, reply: Reply) -> (res: (Vendoring, Action))
        ensures
            (res.0@, res.1@) == vendor_step(self@, reply@),
            vendoring_consistent(self@) ==> vendoring_consistent(res.0@),
    {
        if self.phase == VendorPhase::Stopped {
            return self.halt(WorkflowError::Protocol);
        }
        match (self.phase, reply) {
            (_, Reply::Failed) => self.halt(WorkflowError::External),
            (VendorPhase::ProbingTarget, Reply::Flag(taken)) => {
                if taken {
                    self.halt(WorkflowError::TargetExists)
                } else {
                    let url = self.request.url.clone();
                    self.go(VendorPhase::Cloning, Action::Clone { url })
                }
            },
            (VendorPhase::Cloning, Reply::Done) => {
                match &self.request.revision {
                    Some(revision) => {
                        let revision = revision.clone();
                        let pinned = revision.clone();
                        self.put_revision(pinned).go(
                            VendorPhase::CheckingOut,
                            Action::Checkout { revision },
                        )
                    },
                    None => self.go(VendorPhase::ReadingHead, Action::ResolveCloneHead),
                }
            },
            (VendorPhase::CheckingOut, Reply::Done) => self.go(
                VendorPhase::Stripping,
                Action::StripMetadata,
            ),
            (VendorPhase::ReadingHead, Reply::Text(head)) => {
                let revision = trim(head.as_str());
                self.put_revision(revision).go(VendorPhase::Stripping, Action::StripMetadata)
            },
            (VendorPhase::Stripping, Reply::Done) => self.go(VendorPhase::Saving, Action::Persist),
            (VendorPhase::Saving, Reply::Done) => self.go(VendorPhase::Stopped, Action::Finish),
            _ => self.halt(WorkflowError::Protocol),
        }
    }

    fn halt(self, error: WorkflowError) -> (res: (Vendoring, Action))
        ensures
            (res.0@, res.1@) == vendoring_halted(self@, error@),
    {
        self.go(VendorPhase::Stopped, Action::Fail { error })
    }

    fn go(self, phase: VendorPhase, action: Action) -> (res: (Vendoring, Action))
        ensures
            (res.0@, res.1@) == vendoring_moved(self@, phase, action@),
    {
        let Vendoring { request, record, phase: _ } = self;
        (Vendoring { request, record, phase }, action)
    }

    fn put_revision(self, revision: String) -> (next: Vendoring)
        ensures
            next@ == with_revision(self@, revision@),
    {
        let Vendoring { request, record, phase } = self;
        let DependencyRecord { source_url, revision: _, in_progress_update } = record;
        Vendoring {
            request,
            record: DependencyRecord { source_url, revision, in_progress_update },
            phase,
        }
    }
}

} // verus!

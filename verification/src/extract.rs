//! Extracting a patch: what was changed by hand in the vendored tree of a
//! dependency is written out as a new patch file, numbered to come after the
//! patches that are there.

use crate::protocol::{Action, ActionView, Reply, ReplyView, WorkflowError, WorkflowErrorView};
use crate::sequencer::{
    is_next_number, lemma_next_number_exists, lemma_numbered_name_carries_number,
    next_available_number, next_number, numbered_name, patch_file_name, patch_number,
};
use vstd::prelude::*;

verus! {

/// Where the extraction stands: what it waits to be told.
#[derive(Debug, Clone, Copy, PartialEq, Eq, Structural)]
pub enum ExtractPhase {
    /// Whether anything exists at the dependency's path.
    ProbingTarget,
    /// That there is a directory for the patch files.
    PreparingPatches,
    /// The untracked files in the vendored tree.
    ListingUntracked,
    /// How the vendored tree differs from what was committed last.
    Diffing,
    /// The names of the patch files.
    ListingPatches,
    /// That the new patch file was written.
    WritingPatch,
    /// Nothing: the workflow is over.
    Stopped,
}

/// The workflow that extracts one patch.
#[derive(Debug, Clone, PartialEq, Eq)]
pub struct Extraction {
    /// The canonical path of the dependency.
    pub path: String,
    /// The difference that was captured; empty before.
    pub diff: Vec<u8>,
    /// Where the workflow stands.
    pub phase: ExtractPhase,
}

/// What an `Extraction` holds.
pub struct ExtractionView {
    pub path: Seq<char>,
    pub diff: Seq<u8>,
    pub phase: ExtractPhase,
}

impl View for Extraction {
    type V = ExtractionView;

    open spec fn view(&self) -> ExtractionView {
        ExtractionView { path: self.path@, diff: self.diff@, phase: self.phase }
    }
}

/// The slug of a patch file that was just extracted. The user gives the
/// file a better name afterwards.
pub open spec fn placeholder_slug() -> Seq<char> {
    "change_name"@
}

/// An extraction that begins: it asks whether the dependency is there.
pub open spec fn extraction_started(path: Seq<char>) -> (ExtractionView, ActionView) {
    (
        ExtractionView { path, diff: Seq::empty(), phase: ExtractPhase::ProbingTarget },
        ActionView::ProbeTarget,
    )
}

/// The extraction stops on `error`.
pub open spec fn extraction_halted(w: ExtractionView, error: WorkflowErrorView) -> (
    ExtractionView,
    ActionView,
) {
    (ExtractionView { phase: ExtractPhase::Stopped, ..w }, ActionView::Fail { error })
}

/// The extraction goes to `phase` and hands out `action`.
pub open spec fn extraction_moved(w: ExtractionView, phase: ExtractPhase, action: ActionView) -> (
    ExtractionView,
    ActionView,
) {
    (ExtractionView { phase, ..w }, action)
}

/// What the extraction `w` does when it is told `reply`: where it goes, and
/// the action that it hands out.
pub open spec fn extract_step(w: ExtractionView, reply: ReplyView) -> (
    ExtractionView,
    ActionView,
) {
    if w.phase == ExtractPhase::Stopped {
        extraction_halted(w, WorkflowErrorView::Protocol)
    } else if reply is Failed {
        extraction_halted(w, WorkflowErrorView::External)
    } else {
        match (w.phase, reply) {
            (ExtractPhase::ProbingTarget, ReplyView::Flag(found)) => if found {
                extraction_moved(w, ExtractPhase::PreparingPatches, ActionView::PreparePatches)
            } else {
                extraction_halted(w, WorkflowErrorView::TargetMissing)
            },
            (ExtractPhase::PreparingPatches, ReplyView::Done) => extraction_moved(
                w,
                ExtractPhase::ListingUntracked,
                ActionView::ListUntracked,
            ),
            (ExtractPhase::ListingUntracked, ReplyView::Bytes(listing)) => if listing.len() > 0 {
                extraction_halted(w, WorkflowErrorView::UntrackedFiles)
            } else {
                extraction_moved(w, ExtractPhase::Diffing, ActionView::Diff)
            },
            (ExtractPhase::Diffing, ReplyView::Bytes(diff)) => if diff.len() == 0 {
                extraction_halted(w, WorkflowErrorView::DiffEmpty)
            } else {
                extraction_moved(
                    ExtractionView { diff, ..w },
                    ExtractPhase::ListingPatches,
                    ActionView::ListPatches,
                )
            },
            (ExtractPhase::ListingPatches, ReplyView::Names(names)) => if next_number(names)
                > u32::MAX {
                extraction_halted(w, WorkflowErrorView::NumbersExhausted)
            } else {
                extraction_moved(
                    w,
                    ExtractPhase::WritingPatch,
                    ActionView::WritePatch {
                        name: numbered_name(next_number(names) as u32, placeholder_slug()),
                        contents: w.diff,
                    },
                )
            },
            (ExtractPhase::WritingPatch, ReplyView::Done) => extraction_moved(
                w,
                ExtractPhase::Stopped,
                ActionView::Finish,
            ),
            _ => extraction_halted(w, WorkflowErrorView::Protocol),
        }
    }
}

/// A patch is extracted only from a change: with untracked files in the
/// vendored tree, or without any difference, the extraction ends and no
/// patch file is written.
pub proof fn lemma_extraction_needs_change(w: ExtractionView, bytes: Seq<u8>)
    ensures
        w.phase == ExtractPhase::ListingUntracked && bytes.len() > 0 ==> extract_step(
            w,
            ReplyView::Bytes(bytes),
        ).1 == (ActionView::Fail { error: WorkflowErrorView::UntrackedFiles }),
        w.phase == ExtractPhase::Diffing && bytes.len() == 0 ==> extract_step(
            w,
            ReplyView::Bytes(bytes),
        ).1 == (ActionView::Fail { error: WorkflowErrorView::DiffEmpty }),
        w.phase == ExtractPhase::Diffing && bytes.len() > 0 ==> extract_step(
            w,
            ReplyView::Bytes(bytes),
        ).0.diff == bytes,
{
}

/// The new patch file holds the difference that was captured, and carries a
/// number greater than that of every patch file that was listed: in the
/// order of application it comes last.
pub proof fn lemma_new_patch_comes_last(w: ExtractionView, names: Seq<Seq<char>>)
    requires
        w.phase == ExtractPhase::ListingPatches,
    ensures
        match extract_step(w, ReplyView::Names(names)).1 {
            ActionView::WritePatch { name, contents } => {
                &&& contents == w.diff
                &&& patch_number(name) is Some
                &&& is_next_number(names, patch_number(name)->0 as int)
                &&& forall|i: int|
                    0 <= i < names.len() && patch_number(#[trigger] names[i]) is Some
                        ==> patch_number(names[i])->0 < patch_number(name)->0
            },
            ActionView::Fail { error } => error is NumbersExhausted && exists|i: int|
                0 <= i < names.len() && patch_number(#[trigger] names[i]) == Some(u32::MAX),
            _ => false,
        },
{
    lemma_next_number_exists(names);
    if next_number(names) <= u32::MAX {
        lemma_numbered_name_carries_number(next_number(names) as u32, placeholder_slug());
    } else {
        let i = choose|i: int|
            0 <= i < names.len() && patch_number(#[trigger] names[i]) is Some && patch_number(
                names[i],
            )->0 == next_number(names) - 1;
    }
}

/// Begins the extraction of a patch for the dependency at `path`: the
/// workflow, and its first action, which is to find out whether the
/// dependency is there.
pub fn extract_patch(path: String) -> (res: (Extraction, Action))
    ensures
        (res.0@, res.1@) == extraction_started(path@),
{
    (Extraction { path, diff: Vec::new(), phase: ExtractPhase::ProbingTarget }, Action::ProbeTarget)
}

impl Extraction {
    /// Takes the reply to the action that was handed out last, and hands out
    /// the next action.
    pub fn advance(self, reply: Reply) -> (res: (Extraction, Action))
        ensures
            (res.0@, res.1@) == extract_step(self@, reply@),
    {
        if self.phase == ExtractPhase::Stopped {
            return self.halt(WorkflowError::Protocol);
        }
        match (self.phase, reply) {
            (_, Reply::Failed) => self.halt(WorkflowError::External),
            (ExtractPhase::ProbingTarget, Reply::Flag(found)) => {
                if found {
                    self.go(ExtractPhase::PreparingPatches, Action::PreparePatches)
                } else {
                    self.halt(WorkflowError::TargetMissing)
                }
            },
            (ExtractPhase::PreparingPatches, Reply::Done) => self.go(
                ExtractPhase::ListingUntracked,
                Action::ListUntracked,
            ),
            (ExtractPhase::ListingUntracked, Reply::Bytes(listing)) => {
                if listing.len() > 0 {
                    self.halt(WorkflowError::UntrackedFiles)
                } else {
                    self.go(ExtractPhase::Diffing, Action::Diff)
                }
            },
            (ExtractPhase::Diffing, Reply::Bytes(diff)) => {
                if diff.len() == 0 {
                    self.halt(WorkflowError::DiffEmpty)
                } else {
                    let Extraction { path, diff: _, phase } = self;
                    let next = Extraction { path, diff, phase };
                    next.go(ExtractPhase::ListingPatches, Action::ListPatches)
                }
            },
            (ExtractPhase::ListingPatches, Reply::Names(names)) => {
                match next_available_number(&names) {
                    Some(number) => {
                        let name = patch_file_name(number, "change_name");
                        let contents = self.diff.clone();
                        self.go(ExtractPhase::WritingPatch, Action::WritePatch { name, contents })
                    },
                    None => self.halt(WorkflowError::NumbersExhausted),
                }
            },
            (ExtractPhase::WritingPatch, Reply::Done) => self.go(
                ExtractPhase::Stopped,
                Action::Finish,
            ),
            _ => self.halt(WorkflowError::Protocol),
        }
    }

    fn halt(self, error: WorkflowError) -> (res: (Extraction, Action))
        ensures
            (res.0@, res.1@) == extraction_halted(self@, error@),
    {
        self.go(ExtractPhase::Stopped, Action::Fail { error })
    }

    fn go(self, phase: ExtractPhase, action: Action) -> (res: (Extraction, Action))
        ensures
            (res.0@, res.1@) == extraction_moved(self@, phase, action@),
    {
        let Extraction { path, diff, phase: _ } = self;
        (Extraction { path, diff, phase }, action)
    }
}

} // verus!

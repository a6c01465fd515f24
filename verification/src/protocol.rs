//! What passes between a workflow and the world around it.
//!
//! A workflow itself touches nothing: it hands out one `Action` at a time,
//! and is told by a `Reply` how that went. Whoever drives it clones the
//! repositories, applies the patches and writes the files.

use crate::paths::{is_canonical, relative_part};
use crate::record::{DependencyRecord, DependencyRecordView};
use crate::sequencer::{SequenceError, SequenceErrorView};
use crate::text::{decimal, decimal_string};
use vstd::prelude::*;

verus! {

/// What the user asks of an update.
#[derive(Debug, Clone, PartialEq, Eq)]
pub struct UpdateRequest {
    /// The canonical path of the dependency, as in `//third_party/foo`.
    pub path: String,
    /// The revision to move to; without one, the head of the remote's
    /// default branch.
    pub revision: Option<String>,
    /// Update even if the revision is the one already vendored, and even if
    /// the vendored tree is missing.
    pub force: bool,
    /// Only report the state of the update under way.
    pub status: bool,
    /// Go on with the update under way.
    pub resume: bool,
}

/// What an `UpdateRequest` holds.
pub struct UpdateRequestView {
    pub path: Seq<char>,
    pub revision: Option<Seq<char>>,
    pub force: bool,
    pub status: bool,
    pub resume: bool,
}

impl View for UpdateRequest {
    type V = UpdateRequestView;

    open spec fn view(&self) -> UpdateRequestView {
        UpdateRequestView {
            path: self.path@,
            revision: match self.revision {
                Some(revision) => Some(revision@),
                None => None,
            },
            force: self.force,
            status: self.status,
            resume: self.resume,
        }
    }
}

/// Why a workflow stopped short.
#[derive(Debug, Clone, PartialEq, Eq)]
pub enum WorkflowError {
    /// There is something already where the dependency is to go.
    TargetExists,
    /// There is nothing where the dependency is said to be.
    TargetMissing,
    /// The dependency has no record.
    NotFound,
    /// The record of the dependency cannot be read.
    Corrupt,
    /// There is no update to go on with.
    NoActiveUpdate,
    /// The working tree of the monorepository has changes.
    DirtyWorkingTree,
    /// The revision asked for is the one already vendored.
    AlreadyUpToDate,
    /// The vendored tree of the dependency is missing.
    RepoMissing,
    /// A patch file's name does not begin with a number.
    InvalidPatchName { name: String },
    /// Two patch files' names begin with the same number.
    DuplicatePrefix { number: u32 },
    /// A patch did not apply. It waits for a fix by hand.
    Conflict { patch: String },
    /// There are untracked files in the vendored tree.
    UntrackedFiles,
    /// The vendored tree does not differ from what was committed last.
    DiffEmpty,
    /// A patch file carries the greatest number there is: none is left for
    /// a new one.
    NumbersExhausted,
    /// An action failed.
    External,
    /// The reply does not answer the action that was handed out.
    Protocol,
}

/// What an `WorkflowError` holds.
pub enum WorkflowErrorView {
    TargetExists,
    TargetMissing,
    NotFound,
    Corrupt,
    NoActiveUpdate,
    DirtyWorkingTree,
    AlreadyUpToDate,
    RepoMissing,
    InvalidPatchName { name: Seq<char> },
    DuplicatePrefix { number: u32 },
    Conflict { patch: Seq<char> },
    UntrackedFiles,
    DiffEmpty,
    NumbersExhausted,
    External,
    Protocol,
}

impl View for WorkflowError {
    type V = WorkflowErrorView;

    open spec fn view(&self) -> WorkflowErrorView {
        match self {
            WorkflowError::TargetExists => WorkflowErrorView::TargetExists,
            WorkflowError::TargetMissing => WorkflowErrorView::TargetMissing,
            WorkflowError::NotFound => WorkflowErrorView::NotFound,
            WorkflowError::Corrupt => WorkflowErrorView::Corrupt,
            WorkflowError::NoActiveUpdate => WorkflowErrorView::NoActiveUpdate,
            WorkflowError::DirtyWorkingTree => WorkflowErrorView::DirtyWorkingTree,
            WorkflowError::AlreadyUpToDate => WorkflowErrorView::AlreadyUpToDate,
            WorkflowError::RepoMissing => WorkflowErrorView::RepoMissing,
            WorkflowError::InvalidPatchName { name } => WorkflowErrorView::InvalidPatchName {
                name: name@,
            },
            WorkflowError::DuplicatePrefix { number } => WorkflowErrorView::DuplicatePrefix {
                number: *number,
            },
            WorkflowError::Conflict { patch } => WorkflowErrorView::Conflict { patch: patch@ },
            WorkflowError::UntrackedFiles => WorkflowErrorView::UntrackedFiles,
            WorkflowError::DiffEmpty => WorkflowErrorView::DiffEmpty,
            WorkflowError::NumbersExhausted => WorkflowErrorView::NumbersExhausted,
            WorkflowError::External => WorkflowErrorView::External,
            WorkflowError::Protocol => WorkflowErrorView::Protocol,
        }
    }
}

/// The error of the update for an error of the sequencer.
pub open spec fn sequence_error(error: SequenceErrorView) -> WorkflowErrorView {
    match error {
        SequenceErrorView::InvalidPatchName { name } => WorkflowErrorView::InvalidPatchName { name },
        SequenceErrorView::DuplicatePrefix { number } => WorkflowErrorView::DuplicatePrefix {
            number,
        },
    }
}

impl WorkflowErrorView {
    /// The text of the error message.
    pub open spec fn message_text(self) -> Seq<char> {
        match self {
            WorkflowErrorView::TargetExists => "Target must be empty"@,
            WorkflowErrorView::TargetMissing => "Target not found"@,
            WorkflowErrorView::NotFound => "Dependency record not found"@,
            WorkflowErrorView::Corrupt => "Dependency record cannot be read"@,
            WorkflowErrorView::NoActiveUpdate => "No active update state"@,
            WorkflowErrorView::DirtyWorkingTree => "git must be clean, but has changes"@,
            WorkflowErrorView::AlreadyUpToDate => "Already on the specified version"@,
            WorkflowErrorView::RepoMissing => "Repo dir not found"@,
            WorkflowErrorView::InvalidPatchName { name } => "Patch name has no number: "@ + name,
            WorkflowErrorView::DuplicatePrefix { number } => "Patch number is used twice: "@
                + decimal(number as nat),
            WorkflowErrorView::Conflict { patch } => "Failed apply patch "@ + patch,
            WorkflowErrorView::UntrackedFiles => "untracked files exist in the vendored tree"@,
            WorkflowErrorView::DiffEmpty => "no changes detected in the vendored tree"@,
            WorkflowErrorView::NumbersExhausted => "no patch number is left"@,
            WorkflowErrorView::External => "an external command failed"@,
            WorkflowErrorView::Protocol => "unexpected reply"@,
        }
    }
}

impl WorkflowError {
    /// The error of the update for an error of the sequencer.
    pub fn from_sequence(error: SequenceError) -> (out: WorkflowError)
        ensures
            out@ == sequence_error(error@),
    {
        match error {
            SequenceError::InvalidPatchName { name } => WorkflowError::InvalidPatchName { name },
            SequenceError::DuplicatePrefix { number } => WorkflowError::DuplicatePrefix { number },
        }
    }

    /// A message for the user.
    pub fn message(&self) -> (out: String)
        ensures
            out@ == self@.message_text(),
    {
        match self {
            WorkflowError::TargetExists => "Target must be empty".to_owned(),
            WorkflowError::TargetMissing => "Target not found".to_owned(),
            WorkflowError::NotFound => "Dependency record not found".to_owned(),
            WorkflowError::Corrupt => "Dependency record cannot be read".to_owned(),
            WorkflowError::NoActiveUpdate => "No active update state".to_owned(),
            WorkflowError::DirtyWorkingTree => "git must be clean, but has changes".to_owned(),
            WorkflowError::AlreadyUpToDate => "Already on the specified version".to_owned(),
            WorkflowError::RepoMissing => "Repo dir not found".to_owned(),
            WorkflowError::InvalidPatchName { name } => {
                let mut out = "Patch name has no number: ".to_owned();
                out.append(name.as_str());
                out
            },
            WorkflowError::DuplicatePrefix { number } => {
                let mut out = "Patch number is used twice: ".to_owned();
                out.append(decimal_string(*number as u64).as_str());
                out
            },
            WorkflowError::Conflict { patch } => {
                let mut out = "Failed apply patch ".to_owned();
                out.append(patch.as_str());
                out
            },
            WorkflowError::UntrackedFiles => "untracked files exist in the vendored tree".to_owned(),
            WorkflowError::DiffEmpty => "no changes detected in the vendored tree".to_owned(),
            WorkflowError::NumbersExhausted => "no patch number is left".to_owned(),
            WorkflowError::External => "an external command failed".to_owned(),
            WorkflowError::Protocol => "unexpected reply".to_owned(),
        }
    }
}

/// What the workflow asks to be done next.
#[derive(Debug, Clone, PartialEq, Eq)]
pub enum Action {
    /// Find out whether anything exists at the dependency's path.
    ProbeTarget,
    /// Read the record of the dependency.
    LoadRecord,
    /// List the changes in the working tree of the monorepository. A clean
    /// tree has none.
    CheckClean,
    /// Ask the remote at `url` for the head of its default branch.
    ResolveRemoteHead { url: String },
    /// Find out whether the vendored tree of the dependency exists.
    ProbeRepo,
    /// Remove the vendored tree of the dependency, if there is one.
    RemoveRepo,
    /// Clone `url` to where the vendored tree of the dependency belongs.
    Clone { url: String },
    /// Check out `revision` in the clone.
    Checkout { revision: String },
    /// Ask for the revision that is checked out in the clone.
    ResolveCloneHead,
    /// Strip the clone of its version-control metadata: what is left is the
    /// vendored tree.
    StripMetadata,
    /// Create the directory of the dependency's patch files, if it is
    /// missing.
    PreparePatches,
    /// Ask for the current revision of the monorepository.
    ResolveCurrentRevision,
    /// List the names of the dependency's patch files.
    ListPatches,
    /// Apply the patch file `name` to the vendored tree, merging three-way.
    ApplyPatch { name: String },
    /// List the untracked files in the vendored tree.
    ListUntracked,
    /// Compute how the vendored tree differs from what was committed last.
    Diff,
    /// Overwrite the patch file `name` with `contents`.
    WritePatch { name: String, contents: Vec<u8> },
    /// Write the record that the workflow holds.
    Persist,
    /// Commit everything in the monorepository with `message`.
    Commit { message: String },
    /// Show `lines` to the user. The workflow is over.
    Report { lines: Vec<String> },
    /// Nothing: the update is complete. The workflow is over.
    Finish,
    /// Nothing: the update stopped on `error`. The workflow is over.
    Fail { error: WorkflowError },
}

/// What an `Action` holds.
pub enum ActionView {
    ProbeTarget,
    LoadRecord,
    CheckClean,
    ResolveRemoteHead { url: Seq<char> },
    ProbeRepo,
    RemoveRepo,
    Clone { url: Seq<char> },
    Checkout { revision: Seq<char> },
    ResolveCloneHead,
    StripMetadata,
    PreparePatches,
    ResolveCurrentRevision,
    ListPatches,
    ApplyPatch { name: Seq<char> },
    ListUntracked,
    Diff,
    WritePatch { name: Seq<char>, contents: Seq<u8> },
    Persist,
    Commit { message: Seq<char> },
    Report { lines: Seq<Seq<char>> },
    Finish,
    Fail { error: WorkflowErrorView },
}

impl View for Action {
    type V = ActionView;

    open spec fn view(&self) -> ActionView {
        match self {
            Action::ProbeTarget => ActionView::ProbeTarget,
            Action::LoadRecord => ActionView::LoadRecord,
            Action::CheckClean => ActionView::CheckClean,
            Action::ResolveRemoteHead { url } => ActionView::ResolveRemoteHead { url: url@ },
            Action::ProbeRepo => ActionView::ProbeRepo,
            Action::RemoveRepo => ActionView::RemoveRepo,
            Action::Clone { url } => ActionView::Clone { url: url@ },
            Action::Checkout { revision } => ActionView::Checkout { revision: revision@ },
            Action::ResolveCloneHead => ActionView::ResolveCloneHead,
            Action::StripMetadata => ActionView::StripMetadata,
            Action::PreparePatches => ActionView::PreparePatches,
            Action::ResolveCurrentRevision => ActionView::ResolveCurrentRevision,
            Action::ListPatches => ActionView::ListPatches,
            Action::ApplyPatch { name } => ActionView::ApplyPatch { name: name@ },
            Action::ListUntracked => ActionView::ListUntracked,
            Action::Diff => ActionView::Diff,
            Action::WritePatch { name, contents } => ActionView::WritePatch {
                name: name@,
                contents: contents@,
            },
            Action::Persist => ActionView::Persist,
            Action::Commit { message } => ActionView::Commit { message: message@ },
            Action::Report { lines } => ActionView::Report { lines: lines.deep_view() },
            Action::Finish => ActionView::Finish,
            Action::Fail { error } => ActionView::Fail { error: error@ },
        }
    }
}

impl ActionView {
    /// Whether the workflow is over with this action.
    pub open spec fn is_final(self) -> bool {
        self is Report || self is Finish || self is Fail
    }
}

/// How the action that the workflow handed out went.
#[derive(Debug, Clone, PartialEq, Eq)]
pub enum Reply {
    /// It failed.
    Failed,
    /// It was done, and there is nothing to tell.
    Done,
    /// The answer to a question: yes or no.
    Flag(bool),
    /// The text that it printed.
    Text(String),
    /// The names that it listed.
    Names(Vec<String>),
    /// The bytes that it produced.
    Bytes(Vec<u8>),
    /// The record that was read.
    Record(DependencyRecord),
    /// There is no record.
    Missing,
    /// There is a record, and it cannot be read.
    Malformed,
}

/// What a `Reply` holds.
pub enum ReplyView {
    Failed,
    Done,
    Flag(bool),
    Text(Seq<char>),
    Names(Seq<Seq<char>>),
    Bytes(Seq<u8>),
    Record(DependencyRecordView),
    Missing,
    Malformed,
}

impl View for Reply {
    type V = ReplyView;

    open spec fn view(&self) -> ReplyView {
        match self {
            Reply::Failed => ReplyView::Failed,
            Reply::Done => ReplyView::Done,
            Reply::Flag(flag) => ReplyView::Flag(*flag),
            Reply::Text(text) => ReplyView::Text(text@),
            Reply::Names(names) => ReplyView::Names(names.deep_view()),
            Reply::Bytes(bytes) => ReplyView::Bytes(bytes@),
            Reply::Record(record) => ReplyView::Record(record@),
            Reply::Missing => ReplyView::Missing,
            Reply::Malformed => ReplyView::Malformed,
        }
    }
}

/// The message of the commit that records that the update of `path` to
/// `revision` has started.
pub open spec fn started_text(path: Seq<char>, revision: Seq<char>) -> Seq<char> {
    "Update "@ + path + " to "@ + revision
}

/// The message of the commit that records that the patch `name`, the
/// `number`th of `count`, was applied.
pub open spec fn applied_text(number: nat, count: nat, name: Seq<char>, path: Seq<char>) -> Seq<
    char,
> {
    "Applied patch ("@ + decimal(number) + "/"@ + decimal(count) + ") "@ + name + " for "@ + path
}

/// The message of the commit that records that the conflict of the patch
/// `name`, the `number`th of `count`, was resolved.
pub open spec fn resolved_text(number: nat, count: nat, name: Seq<char>, path: Seq<char>) -> Seq<
    char,
> {
    "Resolve conflicted patch ("@ + decimal(number) + "/"@ + decimal(count) + ") "@ + name
        + " for "@ + path
}

/// The message of the commit that records that the update of `path` is
/// complete.
pub open spec fn completed_text(path: Seq<char>) -> Seq<char> {
    "Update metadata for "@ + path
}

/// The directory that the canonical path `path` names, from the checkout
/// root; `path` itself if it is not canonical.
pub open spec fn relative_text(path: Seq<char>) -> Seq<char> {
    if is_canonical(path) {
        path.subrange(2, path.len() as int)
    } else {
        path
    }
}

/// What to tell the user when the patch `patch` of the dependency at `path`
/// did not apply: how to apply what can be applied, and how to go on.
pub open spec fn remediation_text(path: Seq<char>, patch: Seq<char>) -> Seq<char> {
    "Patch cannot be applied. What to do next:\n\n1. Try to apply with rejected hunks:\n\n  cd "@
        + relative_text(path) + "\n  git apply --reject --directory="@ + relative_text(path)
        + "/repo ../patches/"@ + patch
        + "\n\n2. Check *.rej files and apply conflicted hunks manually in source files (not in patch).\n3. Run the following command\n\n  dockyard update --continue "@
        + path
        + "\n\nIt'll refresh the current patch and will continue with subsequent patches.\n\n"@
}

/// The message of the commit that records that an update has started.
pub fn started_message(path: &str, revision: &str) -> (out: String)
    ensures
        out@ == started_text(path@, revision@),
{
    let mut out = "Update ".to_owned();
    out.append(path);
    out.append(" to ");
    out.append(revision);
    out
}

/// The message of the commit that records that a patch was applied.
pub fn applied_message(number: usize, count: usize, name: &str, path: &str) -> (out: String)
    ensures
        out@ == applied_text(number as nat, count as nat, name@, path@),
{
    let mut out = "Applied patch (".to_owned();
    out.append(decimal_string(number as u64).as_str());
    out.append("/");
    out.append(decimal_string(count as u64).as_str());
    out.append(") ");
    out.append(name);
    out.append(" for ");
    out.append(path);
    out
}

/// The message of the commit that records that a conflict was resolved.
pub fn resolved_message(number: usize, count: usize, name: &str, path: &str) -> (out: String)
    ensures
        out@ == resolved_text(number as nat, count as nat, name@, path@),
{
    let mut out = "Resolve conflicted patch (".to_owned();
    out.append(decimal_string(number as u64).as_str());
    out.append("/");
    out.append(decimal_string(count as u64).as_str());
    out.append(") ");
    out.append(name);
    out.append(" for ");
    out.append(path);
    out
}

/// The message of the commit that records that an update is complete.
pub fn completed_message(path: &str) -> (out: String)
    ensures
        out@ == completed_text(path@),
{
    let mut out = "Update metadata for ".to_owned();
    out.append(path);
    out
}

/// What to tell the user when a patch did not apply.
pub fn remediation(path: &str, patch: &str) -> (out: String)
    ensures
        out@ == remediation_text(path@, patch@),
{
    let relative: &str = match relative_part(path) {
        Some(rest) => rest,
        None => path,
    };
    let mut out =
        "Patch cannot be applied. What to do next:\n\n1. Try to apply with rejected hunks:\n\n  cd ".to_owned();
    out.append(relative);
    out.append("\n  git apply --reject --directory=");
    out.append(relative);
    out.append("/repo ../patches/");
    out.append(patch);
    out.append(
        "\n\n2. Check *.rej files and apply conflicted hunks manually in source files (not in patch).\n3. Run the following command\n\n  dockyard update --continue ",
    );
    out.append(path);
    out.append("\n\nIt'll refresh the current patch and will continue with subsequent patches.\n\n");
    out
}

} // verus!

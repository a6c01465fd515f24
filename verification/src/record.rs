//! The record kept for each vendored dependency.
//!
//! A record names the upstream source and the revision that is vendored.
//! While the dependency is being moved to another revision it also holds the
//! state of that update: the patches to re-apply, in order, and how far each
//! has come.

use crate::text::{decimal, decimal_string};
use vstd::prelude::*;

verus! {

/// How far one patch has come in an update.
#[derive(Debug, Clone, Copy, PartialEq, Eq, Structural)]
pub enum PatchState {
    /// Not tried yet.
    Pending,
    /// Applied as it stands.
    Applied,
    /// Did not apply; waits for a fix by hand.
    Conflict,
    /// Did not apply, was fixed by hand, and its file was rewritten.
    Resolved,
}

impl PatchState {
    /// Whether nothing is left to do for a patch in this state.
    pub open spec fn is_settled(self) -> bool {
        self == PatchState::Applied || self == PatchState::Resolved
    }

    /// The name of the state.
    pub open spec fn label_text(self) -> Seq<char> {
        match self {
            PatchState::Pending => "Pending"@,
            PatchState::Applied => "Applied"@,
            PatchState::Conflict => "Conflict"@,
            PatchState::Resolved => "Resolved"@,
        }
    }

    /// Whether nothing is left to do for a patch in this state.
    pub fn settled(&self) -> (res: bool)
        ensures
            res == self.is_settled(),
    {
        match self {
            PatchState::Applied => true,
            PatchState::Resolved => true,
            _ => false,
        }
    }

    /// The name of the state, as shown to the user.
    pub fn label(&self) -> (out: String)
        ensures
            out@ == self.label_text(),
    {
        match self {
            PatchState::Pending => "Pending".to_owned(),
            PatchState::Applied => "Applied".to_owned(),
            PatchState::Conflict => "Conflict".to_owned(),
            PatchState::Resolved => "Resolved".to_owned(),
        }
    }
}

/// One patch of an update.
#[derive(Debug, Clone, PartialEq, Eq)]
pub struct PatchEntry {
    /// The patch's file name.
    pub name: String,
    /// How far the patch has come.
    pub state: PatchState,
}

/// What a `PatchEntry` holds.
pub struct PatchEntryView {
    pub name: Seq<char>,
    pub state: PatchState,
}

impl View for PatchEntry {
    type V = PatchEntryView;

    open spec fn view(&self) -> PatchEntryView {
        PatchEntryView { name: self.name@, state: self.state }
    }
}

impl DeepView for PatchEntry {
    type V = PatchEntryView;

    open spec fn deep_view(&self) -> PatchEntryView {
        self@
    }
}

/// The state of an update that has started and not yet completed.
#[derive(Debug, Clone, PartialEq, Eq)]
pub struct UpdateState {
    /// The revision of the monorepository just before the update began.
    pub baseline_revision: String,
    /// The patches to re-apply, in their order of application.
    pub patch_states: Vec<PatchEntry>,
}

/// What an `UpdateState` holds.
pub struct UpdateStateView {
    pub baseline_revision: Seq<char>,
    pub patch_states: Seq<PatchEntryView>,
}

impl View for UpdateState {
    type V = UpdateStateView;

    open spec fn view(&self) -> UpdateStateView {
        UpdateStateView {
            baseline_revision: self.baseline_revision@,
            patch_states: self.patch_states.deep_view(),
        }
    }
}

/// The record of one vendored dependency.
#[derive(Debug, Clone, PartialEq, Eq)]
pub struct DependencyRecord {
    /// Where upstream is.
    pub source_url: String,
    /// The upstream revision that is vendored.
    pub revision: String,
    /// The update under way, if any.
    pub in_progress_update: Option<UpdateState>,
}

/// What a `DependencyRecord` holds.
pub struct DependencyRecordView {
    pub source_url: Seq<char>,
    pub revision: Seq<char>,
    pub in_progress_update: Option<UpdateStateView>,
}

impl View for DependencyRecord {
    type V = DependencyRecordView;

    open spec fn view(&self) -> DependencyRecordView {
        DependencyRecordView {
            source_url: self.source_url@,
            revision: self.revision@,
            in_progress_update: match self.in_progress_update {
                Some(update) => Some(update@),
                None => None,
            },
        }
    }
}

/// Whether `at` is the cursor of `entries`: every entry before it is
/// settled, and it is the place of an entry that is not, or the end.
pub open spec fn cursor_at(entries: Seq<PatchEntryView>, at: int) -> bool {
    &&& 0 <= at <= entries.len()
    &&& forall|j: int| 0 <= j < at ==> (#[trigger] entries[j]).state.is_settled()
    &&& (at == entries.len() || !entries[at].state.is_settled())
}

/// The cursor of `entries`: the place of the first entry that is not
/// settled, or their number if all are. It is where an update goes on.
pub open spec fn cursor(entries: Seq<PatchEntryView>) -> int {
    choose|at: int| cursor_at(entries, at)
}

/// Whether every entry is settled.
pub open spec fn all_settled(entries: Seq<PatchEntryView>) -> bool {
    forall|j: int| 0 <= j < entries.len() ==> (#[trigger] entries[j]).state.is_settled()
}

/// The names of the entries, in order.
pub open spec fn names_of(entries: Seq<PatchEntryView>) -> Seq<Seq<char>> {
    Seq::new(entries.len(), |i: int| entries[i].name)
}

/// The entries of an update that begins: one for each name, in order, all
/// pending.
pub open spec fn pending_entries(names: Seq<Seq<char>>) -> Seq<PatchEntryView> {
    Seq::new(names.len(), |i: int| PatchEntryView { name: names[i], state: PatchState::Pending })
}

/// `entries` with the state of the entry at `at` set to `state`; unchanged
/// if there is no such entry.
pub open spec fn with_state(entries: Seq<PatchEntryView>, at: int, state: PatchState) -> Seq<
    PatchEntryView,
> {
    if 0 <= at < entries.len() {
        entries.update(at, PatchEntryView { name: entries[at].name, state })
    } else {
        entries
    }
}

/// The line that reports the entry at place `index`, counted from 0.
pub open spec fn status_line(index: int, entry: PatchEntryView) -> Seq<char> {
    decimal((index + 1) as nat) + ". "@ + entry.name + " - "@ + entry.state.label_text()
}

/// The report of the update under way: a heading and one line for each
/// patch, in order; or one line that says that there is none.
pub open spec fn status_text(record: DependencyRecordView) -> Seq<Seq<char>> {
    match record.in_progress_update {
        None => seq!["No active update"@],
        Some(update) => seq!["Active update state:"@] + Seq::new(
            update.patch_states.len(),
            |i: int| status_line(i, update.patch_states[i]),
        ),
    }
}

/// Every list of entries has a cursor.
pub proof fn lemma_cursor_exists(entries: Seq<PatchEntryView>)
    ensures
        cursor_at(entries, cursor(entries)),
{
    lemma_cursor_from(entries, 0);
}

/// From a place with only settled entries before it, a cursor is found.
proof fn lemma_cursor_from(entries: Seq<PatchEntryView>, from: int)
    requires
        0 <= from <= entries.len(),
        forall|j: int| 0 <= j < from ==> (#[trigger] entries[j]).state.is_settled(),
    ensures
        exists|at: int| cursor_at(entries, at),
    decreases entries.len() - from,
{
    if from == entries.len() || !entries[from].state.is_settled() {
        assert(cursor_at(entries, from));
    } else {
        lemma_cursor_from(entries, from + 1);
    }
}

/// There is one cursor only.
pub proof fn lemma_cursor_unique(entries: Seq<PatchEntryView>, at: int)
    requires
        cursor_at(entries, at),
    ensures
        cursor(entries) == at,
{
}

impl PatchEntry {
    /// The entry of a patch that has not been tried.
    pub fn pending(name: String) -> (entry: PatchEntry)
        ensures
            entry@ == (PatchEntryView { name: name@, state: PatchState::Pending }),
    {
        PatchEntry { name, state: PatchState::Pending }
    }
}

impl UpdateState {
    /// The state of an update that begins: the patches `names`, in this
    /// order, all pending.
    pub fn begin(baseline_revision: String, names: &Vec<String>) -> (update: UpdateState)
        ensures
            update@.baseline_revision == baseline_revision@,
            update@.patch_states == pending_entries(names.deep_view()),
    {
        let mut patch_states: Vec<PatchEntry> = Vec::new();
        let mut i: usize = 0;
        while i < names.len()
            invariant
                i <= names.len(),
                patch_states.deep_view() == pending_entries(names.deep_view().take(i as int)),
            decreases names.len() - i,
        {
            let ghost before = patch_states.deep_view();
            patch_states.push(PatchEntry::pending(names[i].clone()));
            i += 1;
            assert(before.len() == i - 1);
            assert forall|k: int| 0 <= k < i implies #[trigger] patch_states.deep_view()[k]
                == pending_entries(names.deep_view().take(i as int))[k] by {
                if k < i - 1 {
                    assert(patch_states.deep_view()[k] == before[k]);
                }
            }
        }
        UpdateState { baseline_revision, patch_states }
    }

    /// The place where the update goes on: that of the first patch that is
    /// not settled, or the number of patches if all are.
    pub fn cursor(&self) -> (at: usize)
        ensures
            at == cursor(self@.patch_states),
            cursor_at(self@.patch_states, at as int),
    {
        let mut at: usize = 0;
        while at < self.patch_states.len() && self.patch_states[at].state.settled()
            invariant
                at <= self.patch_states.len(),
                forall|j: int|
                    0 <= j < at ==> (#[trigger] self.patch_states.deep_view()[j]).state.is_settled(),
            decreases self.patch_states.len() - at,
        {
            at += 1;
        }
        proof {
            lemma_cursor_unique(self@.patch_states, at as int);
        }
        at
    }

    /// Sets the state of the patch at `at`. Without such a patch nothing
    /// changes.
    pub fn set_state(&mut self, at: usize, state: PatchState)
        ensures
            final(self)@.baseline_revision == old(self)@.baseline_revision,
            final(self)@.patch_states == with_state(old(self)@.patch_states, at as int, state),
    {
        if at < self.patch_states.len() {
            let name = self.patch_states[at].name.clone();
            self.patch_states.set(at, PatchEntry { name, state });
        }
    }
}

impl DependencyRecord {
    /// The record of a dependency that has just been vendored from
    /// `source_url` at `revision`: no update is under way.
    pub fn new(source_url: String, revision: String) -> (record: DependencyRecord)
        ensures
            record@ == (DependencyRecordView {
                source_url: source_url@,
                revision: revision@,
                in_progress_update: None,
            }),
    {
        DependencyRecord { source_url, revision, in_progress_update: None }
    }

    /// The report of the update under way, line by line. The record is
    /// only read.
    pub fn status(&self) -> (lines: Vec<String>)
        ensures
            lines.deep_view() == status_text(self@),
    {
        let mut lines: Vec<String> = Vec::new();
        match &self.in_progress_update {
            None => {
                lines.push("No active update".to_owned());
            },
            Some(update) => {
                lines.push("Active update state:".to_owned());
                let ghost entries = update@.patch_states;
                let mut i: usize = 0;
                assert(lines.deep_view() =~= seq!["Active update state:"@] + Seq::new(
                    0,
                    |k: int| status_line(k, entries[k]),
                ));
                while i < update.patch_states.len()
                    invariant
                        i <= update.patch_states.len(),
                        entries == update@.patch_states,
                        lines.deep_view() == seq!["Active update state:"@] + Seq::new(
                            i as nat,
                            |k: int| status_line(k, entries[k]),
                        ),
                    decreases update.patch_states.len() - i,
                {
                    let entry = &update.patch_states[i];
                    let mut line = decimal_string(i as u64 + 1);
                    line.append(". ");
                    line.append(entry.name.as_str());
                    line.append(" - ");
                    line.append(entry.state.label().as_str());
                    let ghost before = lines.deep_view();
                    lines.push(line);
                    i += 1;
                    let ghost report = seq!["Active update state:"@] + Seq::new(
                        i as nat,
                        |k: int| status_line(k, entries[k]),
                    );
                    assert(before.len() == i);
                    assert forall|k: int| 0 <= k < i + 1 implies #[trigger] lines.deep_view()[k]
                        == report[k] by {
                        if k < i {
                            assert(lines.deep_view()[k] == before[k]);
                        }
                    }
                }
            },
        }
        lines
    }
}

} // verus!

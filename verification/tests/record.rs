use dockyard::record::PatchState::{Applied, Conflict, Pending, Resolved};
use dockyard::record::{DependencyRecord, PatchEntry, PatchState, UpdateState};

fn entry(name: &str, state: PatchState) -> PatchEntry {
    PatchEntry { name: name.to_string(), state }
}

fn update(states: &[PatchState]) -> UpdateState {
    UpdateState {
        baseline_revision: "base".to_string(),
        patch_states: states
            .iter()
            .enumerate()
            .map(|(i, s)| entry(&format!("000{}-p.patch", i + 1), *s))
            .collect(),
    }
}

#[test]
fn labels_name_the_states() {
    assert_eq!(PatchState::Pending.label(), "Pending");
    assert_eq!(PatchState::Applied.label(), "Applied");
    assert_eq!(PatchState::Conflict.label(), "Conflict");
    assert_eq!(PatchState::Resolved.label(), "Resolved");
}

#[test]
fn applied_and_resolved_are_settled() {
    assert!(PatchState::Applied.settled());
    assert!(PatchState::Resolved.settled());
    assert!(!PatchState::Pending.settled());
    assert!(!PatchState::Conflict.settled());
}

#[test]
fn new_record_has_no_update() {
    let record = DependencyRecord::new("https://example.org/up.git".to_string(), "879bfd9".to_string());
    assert_eq!(record.source_url, "https://example.org/up.git");
    assert_eq!(record.revision, "879bfd9");
    assert_eq!(record.in_progress_update, None);
}

#[test]
fn begin_makes_every_patch_pending() {
    let names = vec!["0001-a.patch".to_string(), "0002-b.patch".to_string()];
    let begun = UpdateState::begin("base".to_string(), &names);
    assert_eq!(begun.baseline_revision, "base");
    assert_eq!(
        begun.patch_states,
        vec![
            entry("0001-a.patch", PatchState::Pending),
            entry("0002-b.patch", PatchState::Pending)
        ]
    );
    assert_eq!(UpdateState::begin("b".to_string(), &Vec::new()).patch_states, Vec::new());
}

#[test]
fn cursor_is_first_unsettled_patch() {
    assert_eq!(update(&[]).cursor(), 0);
    assert_eq!(update(&[Pending, Pending]).cursor(), 0);
    assert_eq!(update(&[Applied, Pending]).cursor(), 1);
    assert_eq!(update(&[Applied, Resolved, Conflict, Pending]).cursor(), 2);
    assert_eq!(update(&[Applied, Resolved]).cursor(), 2);
    assert_eq!(update(&[Pending, Applied]).cursor(), 0);
}

#[test]
fn set_state_changes_one_patch() {
    let mut u = update(&[Applied, Pending, Pending]);
    u.set_state(1, Conflict);
    assert_eq!(u, update(&[Applied, Conflict, Pending]));
    u.set_state(3, Applied);
    assert_eq!(u, update(&[Applied, Conflict, Pending]));
}

#[test]
fn status_without_update() {
    let record = DependencyRecord::new("u".to_string(), "r".to_string());
    assert_eq!(record.status(), vec!["No active update".to_string()]);
}

#[test]
fn status_lists_patches_in_order() {
    let record = DependencyRecord {
        source_url: "u".to_string(),
        revision: "r".to_string(),
        in_progress_update: Some(UpdateState {
            baseline_revision: "b".to_string(),
            patch_states: vec![
                entry("0001-update-line1.patch", PatchState::Applied),
                entry("0002-update-line4.patch", PatchState::Conflict),
                entry("0010-more.patch", PatchState::Pending),
            ],
        }),
    };
    assert_eq!(
        record.status(),
        vec![
            "Active update state:".to_string(),
            "1. 0001-update-line1.patch - Applied".to_string(),
            "2. 0002-update-line4.patch - Conflict".to_string(),
            "3. 0010-more.patch - Pending".to_string(),
        ]
    );
}

#[test]
fn status_is_idempotent() {
    let record = DependencyRecord {
        source_url: "u".to_string(),
        revision: "r".to_string(),
        in_progress_update: Some(update(&[PatchState::Applied, PatchState::Pending])),
    };
    let before = record.clone();
    let first = record.status();
    let second = record.status();
    assert_eq!(first, second);
    assert_eq!(record, before);
}

#[test]
fn status_with_empty_update() {
    let record = DependencyRecord {
        source_url: "u".to_string(),
        revision: "r".to_string(),
        in_progress_update: Some(update(&[])),
    };
    assert_eq!(record.status(), vec!["Active update state:".to_string()]);
}

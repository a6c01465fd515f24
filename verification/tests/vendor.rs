use dockyard::extract::{ExtractPhase, Extraction};
use dockyard::paths::{path_to_abs, relative_part, repo_dir, MonorepoPaths};
use dockyard::protocol::{Action, Reply, WorkflowError};
use dockyard::record::DependencyRecord;
use dockyard::vendor::{VendorPhase, VendorRequest, Vendoring};

fn request(revision: Option<&str>) -> VendorRequest {
    VendorRequest {
        url: "https://github.com/khamutov/dockyard.git".to_string(),
        revision: revision.map(|r| r.to_string()),
        path: "//third_party/dockyard".to_string(),
    }
}

fn vendor(request: VendorRequest, replies: Vec<Reply>) -> (Vendoring, Vec<Action>) {
    let (mut workflow, action) = dockyard::vendor::vendor(request);
    let mut actions = vec![action];
    for reply in replies {
        let (next, action) = workflow.advance(reply);
        workflow = next;
        actions.push(action);
    }
    (workflow, actions)
}

fn extract(replies: Vec<Reply>) -> (Extraction, Vec<Action>) {
    let (mut workflow, action) = dockyard::extract::extract_patch("//third_party/repo_extract".to_string());
    let mut actions = vec![action];
    for reply in replies {
        let (next, action) = workflow.advance(reply);
        workflow = next;
        actions.push(action);
    }
    (workflow, actions)
}

const DIFF: &str = "diff --git a/tesfile.txt b/tesfile.txt
new file mode 100644
index 0000000..c0d0fb4
--- /dev/null
+++ b/tesfile.txt
@@ -0,0 +1,2 @@
+line1
+line2
";

#[test]
fn vendor_at_pinned_revision() {
    let (workflow, actions) = vendor(
        request(Some("879bfd9")),
        vec![Reply::Flag(false), Reply::Done, Reply::Done, Reply::Done, Reply::Done],
    );
    assert_eq!(
        actions,
        vec![
            Action::ProbeTarget,
            Action::Clone { url: "https://github.com/khamutov/dockyard.git".to_string() },
            Action::Checkout { revision: "879bfd9".to_string() },
            Action::StripMetadata,
            Action::Persist,
            Action::Finish,
        ]
    );
    assert_eq!(workflow.phase, VendorPhase::Stopped);
    assert_eq!(
        workflow.record,
        DependencyRecord::new(
            "https://github.com/khamutov/dockyard.git".to_string(),
            "879bfd9".to_string()
        )
    );
}

#[test]
fn vendor_record_is_complete_when_it_is_written() {
    let (workflow, actions) = vendor(
        request(Some("879bfd9")),
        vec![Reply::Flag(false), Reply::Done, Reply::Done, Reply::Done],
    );
    assert_eq!(actions.last(), Some(&Action::Persist));
    assert_eq!(workflow.phase, VendorPhase::Saving);
    assert_eq!(workflow.record.revision, "879bfd9");
    assert_eq!(workflow.record.source_url, "https://github.com/khamutov/dockyard.git");
    assert_eq!(workflow.record.in_progress_update, None);
}

#[test]
fn vendor_without_revision_reads_head_of_clone() {
    let (workflow, actions) = vendor(
        request(None),
        vec![
            Reply::Flag(false),
            Reply::Done,
            Reply::Text("a784ec0c5e61\n".to_string()),
            Reply::Done,
            Reply::Done,
        ],
    );
    assert_eq!(
        actions,
        vec![
            Action::ProbeTarget,
            Action::Clone { url: "https://github.com/khamutov/dockyard.git".to_string() },
            Action::ResolveCloneHead,
            Action::StripMetadata,
            Action::Persist,
            Action::Finish,
        ]
    );
    assert_eq!(workflow.record.revision, "a784ec0c5e61");
}

#[test]
fn vendor_refuses_taken_target() {
    let (workflow, actions) = vendor(request(Some("879bfd9")), vec![Reply::Flag(true)]);
    assert_eq!(
        actions,
        vec![Action::ProbeTarget, Action::Fail { error: WorkflowError::TargetExists }]
    );
    assert_eq!(workflow.phase, VendorPhase::Stopped);
}

#[test]
fn vendor_stops_on_failed_clone() {
    let (_, actions) = vendor(request(None), vec![Reply::Flag(false), Reply::Failed]);
    assert_eq!(actions.last(), Some(&Action::Fail { error: WorkflowError::External }));
}

#[test]
fn vendor_refuses_unexpected_reply() {
    let (_, actions) = vendor(request(None), vec![Reply::Done]);
    assert_eq!(actions.last(), Some(&Action::Fail { error: WorkflowError::Protocol }));
    let (_, actions) = vendor(request(None), vec![Reply::Flag(true), Reply::Flag(false)]);
    assert_eq!(actions.last(), Some(&Action::Fail { error: WorkflowError::Protocol }));
}

#[test]
fn test_extract_patch() {
    let (workflow, actions) = extract(vec![
        Reply::Flag(true),
        Reply::Done,
        Reply::Bytes(Vec::new()),
        Reply::Bytes(DIFF.as_bytes().to_vec()),
        Reply::Names(Vec::new()),
        Reply::Done,
    ]);
    assert_eq!(
        actions,
        vec![
            Action::ProbeTarget,
            Action::PreparePatches,
            Action::ListUntracked,
            Action::Diff,
            Action::ListPatches,
            Action::WritePatch {
                name: "0001-change_name.patch".to_string(),
                contents: DIFF.as_bytes().to_vec(),
            },
            Action::Finish,
        ]
    );
    assert_eq!(workflow.phase, ExtractPhase::Stopped);
}

#[test]
fn extract_numbers_patch_after_the_others() {
    let (_, actions) = extract(vec![
        Reply::Flag(true),
        Reply::Done,
        Reply::Bytes(Vec::new()),
        Reply::Bytes(b"+x\n".to_vec()),
        Reply::Names(vec![
            "0010-b.patch".to_string(),
            "0002-a.patch".to_string(),
            ".keep".to_string(),
        ]),
    ]);
    assert_eq!(
        actions.last(),
        Some(&Action::WritePatch {
            name: "0011-change_name.patch".to_string(),
            contents: b"+x\n".to_vec(),
        })
    );
}

#[test]
fn test_extract_patch_error_on_untracked() {
    let (workflow, actions) = extract(vec![
        Reply::Flag(true),
        Reply::Done,
        Reply::Bytes(b"third_party/repo_untracked/tesfile.txt\n".to_vec()),
    ]);
    assert_eq!(actions.last(), Some(&Action::Fail { error: WorkflowError::UntrackedFiles }));
    assert_eq!(workflow.phase, ExtractPhase::Stopped);
    assert!(!actions.iter().any(|a| matches!(a, Action::WritePatch { .. })));
}

#[test]
fn extract_needs_a_difference() {
    let (_, actions) = extract(vec![
        Reply::Flag(true),
        Reply::Done,
        Reply::Bytes(Vec::new()),
        Reply::Bytes(Vec::new()),
    ]);
    assert_eq!(actions.last(), Some(&Action::Fail { error: WorkflowError::DiffEmpty }));
}

#[test]
fn extract_needs_the_dependency() {
    let (_, actions) = extract(vec![Reply::Flag(false)]);
    assert_eq!(actions.last(), Some(&Action::Fail { error: WorkflowError::TargetMissing }));
}

#[test]
fn extract_runs_out_of_numbers() {
    let (_, actions) = extract(vec![
        Reply::Flag(true),
        Reply::Done,
        Reply::Bytes(Vec::new()),
        Reply::Bytes(b"+x\n".to_vec()),
        Reply::Names(vec!["4294967295-last.patch".to_string()]),
    ]);
    assert_eq!(actions.last(), Some(&Action::Fail { error: WorkflowError::NumbersExhausted }));
}

#[test]
fn extract_stops_on_failed_diff() {
    let (_, actions) =
        extract(vec![Reply::Flag(true), Reply::Done, Reply::Bytes(Vec::new()), Reply::Failed]);
    assert_eq!(actions.last(), Some(&Action::Fail { error: WorkflowError::External }));
}

#[test]
fn test_extract_patch_with_repo_subdir() {
    // The vendored tree is named to git with `/` between the directories,
    // from the checkout root and in full.
    let paths = MonorepoPaths::new("/tmp/mono", true).unwrap();
    let canonical = "//third_party/repo_extract_backslash";
    let target = path_to_abs(&paths, canonical).unwrap();
    assert_eq!(repo_dir(&target), "/tmp/mono/third_party/repo_extract_backslash/repo");
    assert_eq!(
        repo_dir(relative_part(canonical).unwrap()),
        "third_party/repo_extract_backslash/repo"
    );

    let (mut workflow, mut action) = dockyard::extract::extract_patch(canonical.to_string());
    let mut written = Vec::new();
    while action != Action::Finish {
        let reply = match &action {
            Action::ProbeTarget => Reply::Flag(true),
            Action::PreparePatches => Reply::Done,
            Action::ListUntracked => Reply::Bytes(Vec::new()),
            Action::Diff => Reply::Bytes(DIFF.as_bytes().to_vec()),
            Action::ListPatches => Reply::Names(Vec::new()),
            Action::WritePatch { name, contents } => {
                written.push((name.clone(), contents.clone()));
                Reply::Done
            },
            other => panic!("not expected: {:?}", other),
        };
        (workflow, action) = workflow.advance(reply);
    }
    assert_eq!(written, vec![("0001-change_name.patch".to_string(), DIFF.as_bytes().to_vec())]);
    assert_eq!(String::from_utf8_lossy(&written[0].1), DIFF);
}

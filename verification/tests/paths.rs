use dockyard::paths::{
    check_path, find_repo_root, join, patch_file, patches_dir, path_to_abs, record_file,
    relative_part, repo_dir, MonorepoPaths, PathError,
};

fn sample_paths() -> MonorepoPaths {
    MonorepoPaths::new("/work/mono", true).unwrap()
}

#[test]
fn new_places_third_party_under_root() {
    let paths = sample_paths();
    assert_eq!(paths.root, "/work/mono");
    assert_eq!(paths.third_party, "/work/mono/third_party");
}

#[test]
fn new_fails_without_third_party() {
    let err = MonorepoPaths::new("/work/mono", false).unwrap_err();
    assert_eq!(
        err,
        PathError::NotFound { path: "third_party".to_string(), root: "/work/mono".to_string() }
    );
    assert_eq!(
        err.message(),
        "could not find third_party under /work/mono (invoked from monorepo?)"
    );
}

#[test]
fn from_third_party_dir_uses_given_directory() {
    let paths = MonorepoPaths::from_third_party_dir("/work/mono", "vendor/deps", true).unwrap();
    assert_eq!(paths.root, "/work/mono");
    assert_eq!(paths.third_party, "/work/mono/vendor/deps");
    let err = MonorepoPaths::from_third_party_dir("/work/mono", "vendor/deps", false).unwrap_err();
    assert_eq!(
        err,
        PathError::NotFound { path: "vendor/deps".to_string(), root: "/work/mono".to_string() }
    );
}

#[test]
fn check_path_joins_or_reports() {
    assert_eq!(check_path("/r", "a/b", true), Ok("/r/a/b".to_string()));
    assert_eq!(
        check_path("/r", "a/b", false),
        Err(PathError::NotFound { path: "a/b".to_string(), root: "/r".to_string() })
    );
}

#[test]
fn join_follows_separator_rules() {
    assert_eq!(join("/r", "x"), "/r/x");
    assert_eq!(join("/r/", "x"), "/r/x");
    assert_eq!(join("", "x"), "x");
    assert_eq!(join("/r", ""), "/r/");
    assert_eq!(join("/r", "/abs"), "/abs");
}

#[test]
fn path_to_abs_resolves_canonical_paths() {
    let paths = sample_paths();
    assert_eq!(
        path_to_abs(&paths, "//third_party/example"),
        Ok("/work/mono/third_party/example".to_string())
    );
    assert_eq!(path_to_abs(&paths, "//"), Ok("/work/mono/".to_string()));
}

#[test]
fn path_to_abs_rejects_other_paths() {
    let paths = sample_paths();
    assert_eq!(path_to_abs(&paths, "third_party/example"), Err(PathError::NotCanonical));
    assert_eq!(path_to_abs(&paths, "/third_party"), Err(PathError::NotCanonical));
    assert_eq!(path_to_abs(&paths, ""), Err(PathError::NotCanonical));
    assert_eq!(
        PathError::NotCanonical.message(),
        "Monorepo canonical path must start with //"
    );
}

#[test]
fn find_repo_root_takes_nearest_marked_directory() {
    let chain = vec![
        ("/a/b/c".to_string(), false),
        ("/a/b".to_string(), true),
        ("/a".to_string(), true),
        ("/".to_string(), false),
    ];
    assert_eq!(find_repo_root(&chain), Ok("/a/b".to_string()));
}

#[test]
fn find_repo_root_fails_without_marker() {
    let chain = vec![("/a/b".to_string(), false), ("/a".to_string(), false)];
    assert_eq!(find_repo_root(&chain), Err(PathError::RootNotFound));
    assert_eq!(find_repo_root(&Vec::new()), Err(PathError::RootNotFound));
    assert_eq!(
        PathError::RootNotFound.message(),
        "could not find monorepo root (invoked from monorepo?)"
    );
}

#[test]
fn relative_part_drops_the_root_mark() {
    assert_eq!(relative_part("//third_party/example"), Some("third_party/example"));
    assert_eq!(relative_part("//"), Some(""));
    assert_eq!(relative_part("/third_party"), None);
    assert_eq!(relative_part("third_party"), None);
}

#[test]
fn layout_of_a_dependency() {
    assert_eq!(repo_dir("/w/third_party/example"), "/w/third_party/example/repo");
    assert_eq!(patches_dir("/w/third_party/example"), "/w/third_party/example/patches");
    assert_eq!(record_file("/w/third_party/example"), "/w/third_party/example/dep_info.json");
    assert_eq!(
        patch_file("third_party/example", "0001-update-line1.patch"),
        "third_party/example/patches/0001-update-line1.patch"
    );
}

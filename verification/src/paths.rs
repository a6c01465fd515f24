//! Paths inside a monorepository checkout.
//!
//! A path is a string whose components are separated by `/`. A canonical path
//! starts with `//`, which stands for the checkout root: `//third_party/foo`
//! is the directory `third_party/foo` under the root.

use vstd::prelude::*;

verus! {

/// Why a path could not be resolved.
#[derive(Debug, Clone, PartialEq, Eq)]
pub enum PathError {
    /// `path` does not exist under `root`.
    NotFound { path: String, root: String },
    /// No directory from the starting point upward holds a `.git` directory.
    RootNotFound,
    /// The path does not start with `//`.
    NotCanonical,
}

impl PathError {
    /// The text of the error message.
    pub open spec fn message_text(&self) -> Seq<char> {
        match self {
            PathError::NotFound { path, root } => "could not find "@ + path@ + " under "@ + root@
                + " (invoked from monorepo?)"@,
            PathError::RootNotFound => "could not find monorepo root (invoked from monorepo?)"@,
            PathError::NotCanonical => "Monorepo canonical path must start with //"@,
        }
    }

    /// Whether this error says that `path` was not found under `root`.
    pub open spec fn is_not_found(&self, path: Seq<char>, root: Seq<char>) -> bool {
        match self {
            PathError::NotFound { path: p, root: r } => p@ == path && r@ == root,
            _ => false,
        }
    }

    /// A message for the user.
    pub fn message(&self) -> (out: String)
        ensures
            out@ == self.message_text(),
    {
        match self {
            PathError::NotFound { path, root } => {
                let mut out = "could not find ".to_owned();
                out.append(path.as_str());
                out.append(" under ");
                out.append(root.as_str());
                out.append(" (invoked from monorepo?)");
                out
            },
            PathError::RootNotFound => {
                "could not find monorepo root (invoked from monorepo?)".to_owned()
            },
            PathError::NotCanonical => "Monorepo canonical path must start with //".to_owned(),
        }
    }
}

/// Whether `s` begins with the two characters `//` that stand for the
/// checkout root.
pub open spec fn is_canonical(s: Seq<char>) -> bool {
    s.len() >= 2 && s[0] == '/' && s[1] == '/'
}

/// `rel` adjoined to `base`: an absolute `rel` replaces `base`; otherwise the
/// two are put together, with one `/` between them unless `base` is empty or
/// already ends in one.
pub open spec fn joined(base: Seq<char>, rel: Seq<char>) -> Seq<char> {
    if rel.len() > 0 && rel[0] == '/' {
        rel
    } else if base.len() == 0 || base.last() == '/' {
        base + rel
    } else {
        base + seq!['/'] + rel
    }
}

/// Adjoins `rel` to `base`.
pub fn join(base: &str, rel: &str) -> (out: String)
    ensures
        out@ == joined(base@, rel@),
{
    let rel_len: usize = rel.unicode_len();
    if rel_len > 0 && rel.get_char(0) == '/' {
        return rel.to_owned();
    }
    let base_len: usize = base.unicode_len();
    let mut out = base.to_owned();
    if base_len > 0 && base.get_char(base_len - 1) != '/' {
        proof {
            reveal_strlit("/");
        }
        out.append("/");
    }
    out.append(rel);
    out
}

/// Monorepo source tree paths.
#[derive(Debug, Clone, PartialEq, Eq)]
pub struct MonorepoPaths {
    /// The monorepo checkout root, as an absolute path.
    pub root: String,
    /// The third-party directory, under `root`.
    pub third_party: String,
}

impl MonorepoPaths {
    /// The paths of the checkout at `root`, with the third-party directory at
    /// its usual place, `third_party`. `found` says whether that directory
    /// exists: without it there are no paths.
    pub fn new(root: &str, found: bool) -> (res: Result<MonorepoPaths, PathError>)
        ensures
            match res {
                Ok(p) => found && p.root@ == root@ && p.third_party@ == joined(
                    root@,
                    "third_party"@,
                ),
                Err(e) => !found && e.is_not_found("third_party"@, root@),
            },
    {
        MonorepoPaths::from_third_party_dir(root, "third_party", found)
    }

    /// The paths of the checkout at `root`, with the third-party directory at
    /// `third_party_path` under it. `found` says whether that directory
    /// exists.
    pub fn from_third_party_dir(root: &str, third_party_path: &str, found: bool) -> (res: Result<
        MonorepoPaths,
        PathError,
    >)
        ensures
            match res {
                Ok(p) => found && p.root@ == root@ && p.third_party@ == joined(
                    root@,
                    third_party_path@,
                ),
                Err(e) => !found && e.is_not_found(third_party_path@, root@),
            },
    {
        match check_path(root, third_party_path, found) {
            Ok(third_party) => Ok(MonorepoPaths { root: root.to_owned(), third_party }),
            Err(e) => Err(e),
        }
    }
}

/// The full path of `p_str` under `root`, given whether anything exists
/// there.
pub fn check_path(root: &str, p_str: &str, found: bool) -> (res: Result<String, PathError>)
    ensures
        match res {
            Ok(full) => found && full@ == joined(root@, p_str@),
            Err(e) => !found && e.is_not_found(p_str@, root@),
        },
{
    if !found {
        return Err(PathError::NotFound { path: p_str.to_owned(), root: root.to_owned() });
    }
    Ok(join(root, p_str))
}

/// Whether `at` is the place of the nearest directory of `chain` that holds a
/// `.git` directory: it holds one, and none before it does.
pub open spec fn nearest_marked(chain: Seq<(String, bool)>, at: int) -> bool {
    &&& 0 <= at < chain.len()
    &&& chain[at].1
    &&& forall|j: int| 0 <= j < at ==> !(#[trigger] chain[j]).1
}

/// The monorepo root: the nearest directory that holds a `.git` directory.
/// `chain` lists the starting directory and then each of its ancestors,
/// nearest first, each with whether it holds a `.git` directory.
pub fn find_repo_root(chain: &Vec<(String, bool)>) -> (res: Result<String, PathError>)
    ensures
        match res {
            Ok(root) => exists|at: int| nearest_marked(chain@, at) && root@ == chain@[at].0@,
            Err(e) => e == PathError::RootNotFound && forall|j: int|
                0 <= j < chain@.len() ==> !(#[trigger] chain@[j]).1,
        },
{
    let mut i: usize = 0;
    while i < chain.len()
        invariant
            i <= chain.len(),
            forall|j: int| 0 <= j < i ==> !(#[trigger] chain@[j]).1,
        decreases chain.len() - i,
    {
        if chain[i].1 {
            assert(nearest_marked(chain@, i as int));
            return Ok(chain[i].0.clone());
        }
        i += 1;
    }
    Err(PathError::RootNotFound)
}

/// The absolute path that the canonical path `path` stands for: what follows
/// `//`, adjoined to the root.
pub fn path_to_abs(paths: &MonorepoPaths, path: &str) -> (res: Result<String, PathError>)
    ensures
        match res {
            Ok(abs) => is_canonical(path@) && abs@ == joined(
                paths.root@,
                path@.subrange(2, path@.len() as int),
            ),
            Err(e) => !is_canonical(path@) && e == PathError::NotCanonical,
        },
{
    match relative_part(path) {
        Some(rel) => Ok(join(paths.root.as_str(), rel)),
        None => Err(PathError::NotCanonical),
    }
}

/// What follows the leading `//` of a canonical path; `None` for a path that
/// is not canonical.
pub fn relative_part(path: &str) -> (res: Option<&str>)
    ensures
        match res {
            Some(rel) => is_canonical(path@) && rel@ == path@.subrange(2, path@.len() as int),
            None => !is_canonical(path@),
        },
{
    let len: usize = path.unicode_len();
    if len >= 2 && path.get_char(0) == '/' && path.get_char(1) == '/' {
        Some(path.substring_char(2, len))
    } else {
        None
    }
}

/// The vendored tree of the dependency in the directory `dep`.
pub open spec fn repo_dir_of(dep: Seq<char>) -> Seq<char> {
    joined(dep, "repo"@)
}

/// The directory of the patch files of the dependency in the directory
/// `dep`.
pub open spec fn patches_dir_of(dep: Seq<char>) -> Seq<char> {
    joined(dep, "patches"@)
}

/// The file that holds the record of the dependency in the directory `dep`.
pub open spec fn record_file_of(dep: Seq<char>) -> Seq<char> {
    joined(dep, "dep_info.json"@)
}

/// The vendored tree of the dependency in the directory `dep`.
pub fn repo_dir(dep: &str) -> (out: String)
    ensures
        out@ == repo_dir_of(dep@),
{
    join(dep, "repo")
}

/// The directory of the patch files of the dependency in the directory
/// `dep`.
pub fn patches_dir(dep: &str) -> (out: String)
    ensures
        out@ == patches_dir_of(dep@),
{
    join(dep, "patches")
}

/// The file that holds the record of the dependency in the directory `dep`.
pub fn record_file(dep: &str) -> (out: String)
    ensures
        out@ == record_file_of(dep@),
{
    join(dep, "dep_info.json")
}

/// The patch file `name` of the dependency in the directory `dep`.
pub fn patch_file(dep: &str, name: &str) -> (out: String)
    ensures
        out@ == joined(patches_dir_of(dep@), name@),
{
    let dir = patches_dir(dep);
    join(dir.as_str(), name)
}

} // verus!

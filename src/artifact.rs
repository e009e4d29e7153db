//! Which compiled binary the supervisor runs, decided from the project's
//! package metadata: the package's declared default binary, or the single
//! binary target of the package that lives in the working directory.

use vstd::prelude::*;

use crate::event::optional_path;
use crate::paths::{equal_paths, join_path, parent_of, parent_path, path_join, same_path};

verus! {

/// The kind that marks a target as a binary.
pub const BIN_KIND: &'static str = "bin";

/// Directory, under the profile directory, that holds built examples.
pub const EXAMPLES_DIR: &'static str = "examples";

/// One build target of a package, as the metadata describes it.
pub struct TargetInfo {
    pub name: String,
    pub kinds: Vec<String>,
}

/// One package of the project, as the metadata describes it.
pub struct PackageInfo {
    /// The binary that the package names to run by default, if any.
    pub default_run: Option<String>,
    /// Path of the package's manifest file.
    pub manifest_path: String,
    pub targets: Vec<TargetInfo>,
}

/// Why no binary could be chosen.
#[derive(Debug, PartialEq, Eq)]
pub enum ArtifactError {
    /// There is not exactly one candidate binary; these are the candidates found.
    UndeterminedBinTarget { candidates: Vec<String> },
}

/// The view of a list of strings.
pub open spec fn texts(v: Seq<String>) -> Seq<Seq<char>> {
    v.map_values(|s: String| s@)
}

/// A target is a binary when one of its kinds is `bin`.
pub open spec fn is_bin_target(t: TargetInfo) -> bool {
    texts(t.kinds@).contains(BIN_KIND@)
}

/// The names of the binary targets among `ts`, in order.
pub open spec fn bin_names(ts: Seq<TargetInfo>) -> Seq<Seq<char>>
    decreases ts.len(),
{
    if ts.len() == 0 {
        seq![]
    } else if is_bin_target(ts.last()) {
        bin_names(ts.drop_last()).push(ts.last().name@)
    } else {
        bin_names(ts.drop_last())
    }
}

/// The binary that a package proposes: its declared default, or else its only
/// binary target provided the package lives in the working directory `cwd`.
pub open spec fn candidate_of(p: PackageInfo, cwd: Seq<char>) -> Option<Seq<char>> {
    match p.default_run {
        Some(x) => Some(x@),
        None => {
            let names = bin_names(p.targets@);
            match parent_of(p.manifest_path@) {
                Some(dir) => if equal_paths(dir, cwd) && names.len() == 1 {
                    Some(names[0])
                } else {
                    None
                },
                None => None,
            }
        },
    }
}

/// The binaries that the packages propose, in package order.
pub open spec fn candidates(ps: Seq<PackageInfo>, cwd: Seq<char>) -> Seq<Seq<char>>
    decreases ps.len(),
{
    if ps.len() == 0 {
        seq![]
    } else {
        match candidate_of(ps.last(), cwd) {
            Some(n) => candidates(ps.drop_last(), cwd).push(n),
            None => candidates(ps.drop_last(), cwd),
        }
    }
}

/// Whether `bin` is among `kinds`.
fn has_bin_kind(kinds: &Vec<String>) -> (r: bool)
    ensures
        r == texts(kinds@).contains(BIN_KIND@),
{
    let bin = BIN_KIND.to_string();
    let mut i: usize = 0;
    while i < kinds.len()
        invariant
            i <= kinds@.len(),
            bin@ == BIN_KIND@,
            forall|j: int| 0 <= j < i ==> kinds@[j]@ != BIN_KIND@,
        decreases kinds@.len() - i,
    {
        if kinds[i] == bin {
            assert(texts(kinds@)[i as int] == BIN_KIND@);
            return true;
        }
        i = i + 1;
    }
    assert forall|j: int| 0 <= j < texts(kinds@).len() implies texts(kinds@)[j] != BIN_KIND@ by {}
    false
}

/// The names of the binary targets among `targets`.
pub fn bin_target_names(targets: &Vec<TargetInfo>) -> (names: Vec<String>)
    ensures
        texts(names@) == bin_names(targets@),
{
    let mut names: Vec<String> = Vec::new();
    let mut i: usize = 0;
    while i < targets.len()
        invariant
            i <= targets@.len(),
            texts(names@) == bin_names(targets@.take(i as int)),
        decreases targets@.len() - i,
    {
        let t = &targets[i];
        assert(targets@.take(i + 1).drop_last() =~= targets@.take(i as int));
        if has_bin_kind(&t.kinds) {
            names.push(t.name.clone());
            assert(texts(names@) =~= bin_names(targets@.take(i as int)).push(t.name@));
        }
        i = i + 1;
    }
    assert(targets@.take(targets@.len() as int) =~= targets@);
    names
}

/// The binary that package `p` proposes, with `cwd` the working directory.
pub fn bin_candidate(p: &PackageInfo, cwd: &str) -> (r: Option<String>)
    ensures
        optional_path(r) == candidate_of(*p, cwd@),
{
    match &p.default_run {
        Some(x) => Some(x.clone()),
        None => {
            let names = bin_target_names(&p.targets);
            match parent_path(p.manifest_path.as_str()) {
                Some(dir) => {
                    if same_path(dir.as_str(), cwd) && names.len() == 1 {
                        assert(names@[0]@ == texts(names@)[0]);
                        Some(names[0].clone())
                    } else {
                        None
                    }
                },
                None => None,
            }
        },
    }
}

/// The binaries that the packages propose, in package order.
pub fn bin_candidates(packages: &Vec<PackageInfo>, cwd: &str) -> (names: Vec<String>)
    ensures
        texts(names@) == candidates(packages@, cwd@),
{
    let mut names: Vec<String> = Vec::new();
    let mut i: usize = 0;
    while i < packages.len()
        invariant
            i <= packages@.len(),
            texts(names@) == candidates(packages@.take(i as int), cwd@),
        decreases packages@.len() - i,
    {
        assert(packages@.take(i + 1).drop_last() =~= packages@.take(i as int));
        match bin_candidate(&packages[i], cwd) {
            Some(n) => {
                names.push(n);
                assert(texts(names@) =~= candidates(packages@.take(i as int), cwd@).push(n@));
            },
            None => {},
        }
        i = i + 1;
    }
    assert(packages@.take(packages@.len() as int) =~= packages@);
    names
}

/// Chooses the binary to run: succeeds exactly when the packages propose one
/// binary, and otherwise reports every candidate.
pub fn select_bin_target(packages: &Vec<PackageInfo>, cwd: &str) -> (r: Result<String, ArtifactError>)
    ensures
        match r {
            Ok(name) => candidates(packages@, cwd@).len() == 1 && name@ == candidates(packages@, cwd@)[0],
            Err(ArtifactError::UndeterminedBinTarget { candidates: found }) => candidates(
                packages@,
                cwd@,
            ).len() != 1 && texts(found@) == candidates(packages@, cwd@),
        },
{
    let found = bin_candidates(packages, cwd);
    if found.len() == 1 {
        assert(found@[0]@ == texts(found@)[0]);
        Ok(found[0].clone())
    } else {
        Err(ArtifactError::UndeterminedBinTarget { candidates: found })
    }
}

/// The path of the artifact under the profile directory `profile_dir`: the
/// named example's binary, or else the chosen binary target.
pub open spec fn artifact_of(
    profile_dir: Seq<char>,
    example: Option<Seq<char>>,
    packages: Seq<PackageInfo>,
    cwd: Seq<char>,
) -> Option<Seq<char>> {
    match example {
        Some(e) => Some(path_join(path_join(profile_dir, EXAMPLES_DIR@), e)),
        None => if candidates(packages, cwd).len() == 1 {
            Some(path_join(profile_dir, candidates(packages, cwd)[0]))
        } else {
            None
        },
    }
}

/// Resolves the artifact to run from the package metadata. Fails exactly when
/// no example is named and the packages do not propose exactly one binary.
pub fn artifact_path(
    profile_dir: &str,
    example: &Option<String>,
    packages: &Vec<PackageInfo>,
    cwd: &str,
) -> (r: Result<String, ArtifactError>)
    ensures
        match r {
            Ok(p) => artifact_of(profile_dir@, optional_path(*example), packages@, cwd@) == Some(p@),
            Err(ArtifactError::UndeterminedBinTarget { candidates: found }) => artifact_of(
                profile_dir@,
                optional_path(*example),
                packages@,
                cwd@,
            ) is None && texts(found@) == candidates(packages@, cwd@),
        },
{
    match example {
        Some(e) => {
            let dir = join_path(profile_dir, EXAMPLES_DIR);
            Ok(join_path(dir.as_str(), e.as_str()))
        },
        None => match select_bin_target(packages, cwd) {
            Ok(name) => Ok(join_path(profile_dir, name.as_str())),
            Err(err) => Err(err),
        },
    }
}

} // verus!

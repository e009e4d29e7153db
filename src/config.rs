//! The supervisor's configuration, fixed at startup, and what follows from it:
//! the build command line, the paths to watch and where the artifact lives.

use vstd::prelude::*;

use crate::artifact::{artifact_of, artifact_path, candidates, texts, ArtifactError, PackageInfo, EXAMPLES_DIR};
use crate::event::optional_path;
use crate::paths::{join_path, path_join, resolve_watch, resolved_watch};

verus! {

/// The build tool.
pub const BUILD_TOOL: &'static str = "cargo";

pub const BUILD_SUBCOMMAND: &'static str = "build";

pub const COLOR_FLAG: &'static str = "--color=always";

pub const RELEASE_FLAG: &'static str = "--release";

pub const EXAMPLE_FLAG: &'static str = "--example";

/// Profile directory of an optimized build.
pub const RELEASE_PROFILE: &'static str = "release";

/// Profile directory of a debug build.
pub const DEBUG_PROFILE: &'static str = "debug";

/// The configuration of one run.
pub struct DevServer {
    /// Host name or address to listen on.
    pub host: String,
    pub port: u16,
    /// Files or directories whose changes trigger a build; directories are
    /// watched recursively.
    pub watch: Option<Vec<String>>,
    /// The binary to run, when given explicitly.
    pub bin: Option<String>,
    /// Working directory of the build and of the child, in canonical form.
    pub cwd: String,
    /// Build an optimized release.
    pub release: bool,
    /// Build and run this example instead of a binary target.
    pub example: Option<String>,
    /// The signal that asks the child to restart.
    pub signal: i32,
}

/// The arguments of the build command.
pub open spec fn build_args_of(release: bool, example: Option<Seq<char>>) -> Seq<Seq<char>> {
    let base = seq![BUILD_SUBCOMMAND@, COLOR_FLAG@];
    let with_profile = if release {
        base.push(RELEASE_FLAG@)
    } else {
        base
    };
    match example {
        Some(e) => with_profile.push(EXAMPLE_FLAG@).push(e),
        None => with_profile,
    }
}

/// The view of an optional list of paths.
pub open spec fn optional_texts(v: Option<Vec<String>>) -> Option<Seq<Seq<char>>> {
    match v {
        Some(w) => Some(texts(w@)),
        None => None,
    }
}

/// The paths to watch for source changes, made absolute: the configured ones,
/// and the examples directory when an example is run.
pub open spec fn watch_list_of(
    watch: Option<Seq<Seq<char>>>,
    cwd: Seq<char>,
    example: Option<Seq<char>>,
) -> Seq<Seq<char>> {
    let given = match watch {
        Some(w) => w,
        None => seq![],
    };
    let all = if example is Some {
        given.push(path_join(cwd, EXAMPLES_DIR@))
    } else {
        given
    };
    all.map_values(|w: Seq<char>| resolved_watch(cwd, w))
}

/// The name of the profile directory.
pub open spec fn profile_of(release: bool) -> Seq<char> {
    if release {
        RELEASE_PROFILE@
    } else {
        DEBUG_PROFILE@
    }
}

impl DevServer {
    /// The arguments to run the build tool with.
    pub fn build_args(&self) -> (args: Vec<String>)
        ensures
            texts(args@) == build_args_of(self.release, optional_path(self.example)),
    {
        let mut args: Vec<String> = Vec::new();
        args.push(BUILD_SUBCOMMAND.to_string());
        args.push(COLOR_FLAG.to_string());
        if self.release {
            args.push(RELEASE_FLAG.to_string());
        }
        match &self.example {
            Some(e) => {
                args.push(EXAMPLE_FLAG.to_string());
                args.push(e.clone());
            },
            None => {},
        }
        assert(texts(args@) =~= build_args_of(self.release, optional_path(self.example)));
        args
    }

    /// The absolute paths to watch recursively for source changes.
    pub fn watch_paths(&self) -> (paths: Vec<String>)
        ensures
            texts(paths@) == watch_list_of(
                optional_texts(self.watch),
                self.cwd@,
                optional_path(self.example),
            ),
    {
        let mut given: Vec<String> = match &self.watch {
            Some(w) => w.clone(),
            None => Vec::new(),
        };
        if self.example.is_some() {
            given.push(join_path(self.cwd.as_str(), EXAMPLES_DIR));
        }
        let ghost all = texts(given@);
        let mut paths: Vec<String> = Vec::new();
        let mut i: usize = 0;
        while i < given.len()
            invariant
                i <= given@.len(),
                all == texts(given@),
                texts(paths@) =~= all.take(i as int).map_values(
                    |w: Seq<char>| resolved_watch(self.cwd@, w),
                ),
            decreases given@.len() - i,
        {
            let ghost prev = paths@;
            let r = resolve_watch(self.cwd.as_str(), given[i].as_str());
            paths.push(r);
            assert(texts(paths@) =~= texts(prev).push(r@));
            assert(all.take(i + 1) =~= all.take(i as int).push(all[i as int]));
            i = i + 1;
        }
        assert(all.take(all.len() as int) =~= all);
        assert(all =~= {
            let given_view = match optional_texts(self.watch) {
                Some(w) => w,
                None => seq![],
            };
            if self.example is Some {
                given_view.push(path_join(self.cwd@, EXAMPLES_DIR@))
            } else {
                given_view
            }
        });
        paths
    }

    /// The profile directory under the build tool's target directory.
    pub fn profile_dir(&self, target_directory: &str) -> (dir: String)
        ensures
            dir@ == path_join(target_directory@, profile_of(self.release)),
    {
        if self.release {
            join_path(target_directory, RELEASE_PROFILE)
        } else {
            join_path(target_directory, DEBUG_PROFILE)
        }
    }

    /// The artifact to run, found from the package metadata under the profile
    /// directory `profile_dir` (see [`artifact_path`]).
    pub fn bin_from_metadata(&self, profile_dir: &str, packages: &Vec<PackageInfo>) -> (r: Result<
        String,
        ArtifactError,
    >)
        ensures
            match r {
                Ok(p) => artifact_of(profile_dir@, optional_path(self.example), packages@, self.cwd@)
                    == Some(p@),
                Err(ArtifactError::UndeterminedBinTarget { candidates: found }) => artifact_of(
                    profile_dir@,
                    optional_path(self.example),
                    packages@,
                    self.cwd@,
                ) is None && texts(found@) == candidates(packages@, self.cwd@),
            },
    {
        artifact_path(profile_dir, &self.example, packages, self.cwd.as_str())
    }
}

} // verus!

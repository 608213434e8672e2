//! Cleanup: which part of a workspace a request removes, and what the
//! attempt amounts to.
use vstd::prelude::*;
use crate::config::{Config, ConfigView, PathType};
use crate::error::FilesystemError;
use crate::text::{joined, lemma_joined_extends, lemma_joined_injective, same, sep};

verus! {

/// What can be cleaned up.
#[derive(Debug, PartialEq, Eq, Clone, Copy, Structural)]
pub enum CleanTarget {
    /// The whole space.
    Space,
    /// The configuration file.
    Config,
    /// The repository store.
    Repositories,
    /// The projected links.
    Symlinks,
}

/// What the caller is asked to remove.
#[derive(Debug, PartialEq, Eq, Clone)]
pub enum CleanupRequest {
    /// The directory at this path, with everything in it.
    RemoveTree(String),
    /// The file at this path.
    RemoveFile(String),
    /// The removable links of the directory that was projected into.
    RemoveLinks,
}

pub enum CleanupRequestView {
    RemoveTree(Seq<char>),
    RemoveFile(Seq<char>),
    RemoveLinks,
}

impl View for CleanupRequest {
    type V = CleanupRequestView;

    open spec fn view(&self) -> CleanupRequestView {
        match self {
            CleanupRequest::RemoveTree(path) => CleanupRequestView::RemoveTree(path@),
            CleanupRequest::RemoveFile(path) => CleanupRequestView::RemoveFile(path@),
            CleanupRequest::RemoveLinks => CleanupRequestView::RemoveLinks,
        }
    }
}

/// How a removal ended, as the caller saw it.
#[derive(Debug, PartialEq, Eq, Clone, Copy, Structural)]
pub enum RemovalReport {
    /// It was there and is gone.
    Removed,
    /// Nothing was there.
    NotFound,
    /// The operating system refused.
    Denied,
}

/// A cleanup that succeeded.
#[derive(Debug, PartialEq, Eq, Clone, Copy, Structural)]
pub enum CleanOutcome {
    /// The resource was removed.
    Removed,
    /// The resource was not there to begin with.
    AlreadyAbsent,
}

/// The target that a word names: the full name or its one-letter form, and
/// the repository store for any other word.
pub open spec fn target_named(word: Seq<char>) -> CleanTarget {
    if word == "space"@ || word == "s"@ {
        CleanTarget::Space
    } else if word == "config"@ || word == "c"@ {
        CleanTarget::Config
    } else if word == "symlinks"@ || word == "l"@ {
        CleanTarget::Symlinks
    } else {
        CleanTarget::Repositories
    }
}

/// The removal that cleans `target` in the workspace `config`.
pub open spec fn cleanup_for(config: ConfigView, target: CleanTarget) -> CleanupRequestView {
    match target {
        CleanTarget::Space => CleanupRequestView::RemoveTree(config.path(PathType::Space)),
        CleanTarget::Config => CleanupRequestView::RemoveFile(config.path(PathType::Config)),
        CleanTarget::Repositories => CleanupRequestView::RemoveTree(
            config.path(PathType::Repositories),
        ),
        CleanTarget::Symlinks => CleanupRequestView::RemoveLinks,
    }
}

/// `path` is `root` itself or lies below it.
pub open spec fn is_within(root: Seq<char>, path: Seq<char>) -> bool {
    path == root || (root + sep()).is_prefix_of(path)
}

/// Serving `request` takes `path` away.
pub open spec fn removes(request: CleanupRequestView, path: Seq<char>) -> bool {
    match request {
        CleanupRequestView::RemoveTree(root) => is_within(root, path),
        CleanupRequestView::RemoveFile(file) => path == file,
        CleanupRequestView::RemoveLinks => false,
    }
}

/// Nothing to remove is a success of its own kind; a refusal is an error.
pub open spec fn cleanup_result(report: RemovalReport) -> Result<CleanOutcome, FilesystemError> {
    match report {
        RemovalReport::Removed => Ok(CleanOutcome::Removed),
        RemovalReport::NotFound => Ok(CleanOutcome::AlreadyAbsent),
        RemovalReport::Denied => Err(FilesystemError::Denied),
    }
}

/// The report of a removal made of several: refused if any part was, else
/// done if any part was, else nothing was there.
pub open spec fn combined(reports: Seq<RemovalReport>) -> RemovalReport {
    if reports.contains(RemovalReport::Denied) {
        RemovalReport::Denied
    } else if reports.contains(RemovalReport::Removed) {
        RemovalReport::Removed
    } else {
        RemovalReport::NotFound
    }
}

/// Sums up the reports of the single removals that one cleanup was made of.
pub fn combine_reports(reports: &Vec<RemovalReport>) -> (r: RemovalReport)
    ensures
        r == combined(reports@),
{
    let mut denied = false;
    let mut removed = false;
    let mut i: usize = 0;
    while i < reports.len()
        invariant
            i <= reports.len(),
            denied == reports@.take(i as int).contains(RemovalReport::Denied),
            removed == reports@.take(i as int).contains(RemovalReport::Removed),
        decreases reports.len() - i,
    {
        proof {
            let before = reports@.take(i as int);
            let after = reports@.take(i + 1);
            assert(after =~= before.push(reports@[i as int]));
            assert forall|x: RemovalReport| after.contains(x) <==> before.contains(x) || x
                == reports@[i as int] by {
                if before.contains(x) {
                    let k = choose|k: int| 0 <= k < before.len() && before[k] == x;
                    assert(after[k] == x);
                }
                if x == reports@[i as int] {
                    assert(after[i as int] == x);
                }
            }
        }
        match reports[i] {
            RemovalReport::Denied => {
                denied = true;
            },
            RemovalReport::Removed => {
                removed = true;
            },
            RemovalReport::NotFound => {},
        }
        i += 1;
    }
    assert(reports@.take(i as int) =~= reports@);
    if denied {
        RemovalReport::Denied
    } else if removed {
        RemovalReport::Removed
    } else {
        RemovalReport::NotFound
    }
}

impl CleanTarget {
    /// Reads a target from a word of the command line.
    pub fn parse(word: &str) -> (r: CleanTarget)
        ensures
            r == target_named(word@),
    {
        if same(word, "space") || same(word, "s") {
            CleanTarget::Space
        } else if same(word, "config") || same(word, "c") {
            CleanTarget::Config
        } else if same(word, "symlinks") || same(word, "l") {
            CleanTarget::Symlinks
        } else {
            CleanTarget::Repositories
        }
    }
}

impl Config {
    /// The removal that cleans `target`.
    pub fn cleanup_request(&self, target: CleanTarget) -> (r: CleanupRequest)
        ensures
            r@ == cleanup_for(self@, target),
    {
        match target {
            CleanTarget::Space => CleanupRequest::RemoveTree(
                self.get_path_as_string(&PathType::Space),
            ),
            CleanTarget::Config => CleanupRequest::RemoveFile(
                self.get_path_as_string(&PathType::Config),
            ),
            CleanTarget::Repositories => CleanupRequest::RemoveTree(
                self.get_path_as_string(&PathType::Repositories),
            ),
            CleanTarget::Symlinks => CleanupRequest::RemoveLinks,
        }
    }
}

/// Turns the report of a removal into the result of the cleanup.
pub fn conclude_cleanup(report: RemovalReport) -> (r: Result<CleanOutcome, FilesystemError>)
    ensures
        r == cleanup_result(report),
        r.is_ok() <==> report != RemovalReport::Denied,
{
    match report {
        RemovalReport::Removed => Ok(CleanOutcome::Removed),
        RemovalReport::NotFound => Ok(CleanOutcome::AlreadyAbsent),
        RemovalReport::Denied => Err(FilesystemError::Denied),
    }
}

/// Cleaning the configuration removes the configuration file and no other
/// path. The repository store stays wherever its name differs from the
/// file's, and no link is touched.
pub proof fn lemma_clean_config_scope(config: ConfigView, path: Seq<char>)
    ensures
        removes(cleanup_for(config, CleanTarget::Config), path) <==> path == config.path(
            PathType::Config,
        ),
        config.paths.config != config.paths.repositories ==> !removes(
            cleanup_for(config, CleanTarget::Config),
            config.path(PathType::Repositories),
        ),
{
    if config.path(PathType::Config) == config.path(PathType::Repositories) {
        lemma_joined_injective(config.paths.space, config.paths.config, config.paths.repositories);
    }
}

/// Cleaning the space removes the root, the configuration file, the
/// repository store and every repository's directory, and nothing that lies
/// outside the root.
pub proof fn lemma_clean_space_scope(config: ConfigView, path: Seq<char>)
    ensures
        removes(cleanup_for(config, CleanTarget::Space), config.path(PathType::Space)),
        removes(cleanup_for(config, CleanTarget::Space), config.path(PathType::Config)),
        removes(cleanup_for(config, CleanTarget::Space), config.path(PathType::Repositories)),
        forall|i: int|
            0 <= i < config.repositories.len() ==> removes(
                cleanup_for(config, CleanTarget::Space),
                (#[trigger] config.repositories[i]).destination(config.path(PathType::Repositories)),
            ),
        removes(cleanup_for(config, CleanTarget::Space), path) ==> config.path(
            PathType::Space,
        ).is_prefix_of(path),
{
    let space = config.paths.space;
    let store = config.path(PathType::Repositories);
    lemma_within_joined(space, config.paths.config);
    lemma_within_joined(space, config.paths.repositories);
    assert forall|i: int| 0 <= i < config.repositories.len() implies removes(
        cleanup_for(config, CleanTarget::Space),
        (#[trigger] config.repositories[i]).destination(store),
    ) by {
        let project = config.repositories[i].project;
        let dest = joined(store, project);
        lemma_joined_extends(store, project);
        assert((space + sep()).is_prefix_of(dest)) by {
            assert(dest.subrange(0, store.len() as int) == store);
            assert(store.subrange(0, space.len() as int + 1) =~= space + sep());
            assert(dest.subrange(0, space.len() as int + 1) =~= space + sep());
        }
    }
    if removes(cleanup_for(config, CleanTarget::Space), path) {
        if path != space {
            assert(path.subrange(0, space.len() as int + 1) == space + sep());
            assert(path.subrange(0, space.len() as int) =~= space);
        } else {
            assert(space.is_prefix_of(space));
        }
    }
}

/// Whatever is joined onto a root lies within it.
pub proof fn lemma_within_joined(root: Seq<char>, name: Seq<char>)
    ensures
        is_within(root, joined(root, name)),
{
    assert(joined(root, name).subrange(0, root.len() as int + 1) =~= root + sep());
}

} // verus!

//! Path resolution: from a role to the concrete path that plays it.
use vstd::prelude::*;
use crate::config::{Config, ConfigView, PathType};
use crate::text::{join, lemma_joined_extends};

verus! {

impl Config {
    /// The path that plays the role `path_type`. The space root is given as
    /// configured, the configuration file and the repository store lie
    /// directly below it, and the key is the configured identity file,
    /// verbatim. Nothing is looked up on disk.
    pub fn get_path_as_string(&self, path_type: &PathType) -> (r: String)
        ensures
            r@ == self@.path(*path_type),
            *path_type != PathType::Key ==> self@.path(PathType::Space).is_prefix_of(r@),
    {
        proof {
            if *path_type != PathType::Key {
                lemma_paths_below_space(self@, *path_type);
            }
        }
        match path_type {
            PathType::Space => self.paths.space.clone(),
            PathType::Config => join(self.paths.space.as_str(), self.paths.config.as_str()),
            PathType::Repositories => join(
                self.paths.space.as_str(),
                self.paths.repositories.as_str(),
            ),
            PathType::Key => self.ssh.identity_file.clone(),
        }
    }

    /// All four paths at once: space root, configuration file, repository
    /// store, key.
    pub fn get_paths_as_strings(&self) -> (r: (String, String, String, String))
        ensures
            r.0@ == self@.path(PathType::Space),
            r.1@ == self@.path(PathType::Config),
            r.2@ == self@.path(PathType::Repositories),
            r.3@ == self@.path(PathType::Key),
    {
        (
            self.get_path_as_string(&PathType::Space),
            self.get_path_as_string(&PathType::Config),
            self.get_path_as_string(&PathType::Repositories),
            self.get_path_as_string(&PathType::Key),
        )
    }
}

/// Every path but the key starts with the space root; the two paths inside
/// the space are strictly longer than the root.
pub proof fn lemma_paths_below_space(c: ConfigView, which: PathType)
    requires
        which != PathType::Key,
    ensures
        c.path(PathType::Space).is_prefix_of(c.path(which)),
        which != PathType::Space ==> c.path(which).len() > c.path(PathType::Space).len(),
{
    lemma_joined_extends(c.paths.space, c.paths.config);
    lemma_joined_extends(c.paths.space, c.paths.repositories);
    assert(c.paths.space.is_prefix_of(c.paths.space));
}

/// A repository's destination lies below the repository store, which lies
/// below the space root.
pub proof fn lemma_destination_below_space(c: ConfigView, i: int)
    requires
        0 <= i < c.repositories.len(),
    ensures
        c.path(PathType::Repositories).is_prefix_of(
            c.repositories[i].destination(c.path(PathType::Repositories)),
        ),
        c.path(PathType::Space).is_prefix_of(
            c.repositories[i].destination(c.path(PathType::Repositories)),
        ),
{
    let store = c.path(PathType::Repositories);
    let dest = c.repositories[i].destination(store);
    lemma_joined_extends(c.paths.space, c.paths.repositories);
    lemma_joined_extends(store, c.repositories[i].project);
    assert(c.paths.space.is_prefix_of(dest)) by {
        assert(dest.subrange(0, store.len() as int) == store);
        assert(store.subrange(0, c.paths.space.len() as int) == c.paths.space);
        assert(dest.subrange(0, c.paths.space.len() as int) =~= c.paths.space);
    }
}

} // verus!

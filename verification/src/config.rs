//! The workspace description and the paths derived from it.
use vstd::prelude::*;
use crate::text::{contained_name, is_contained_name, join, joined, push, pushed};

verus! {

/// Where the space lives: its root, and the names of the configuration file
/// and of the repository store inside that root.
#[derive(Debug, PartialEq, Eq, Clone)]
pub struct Paths {
    pub space: String,
    pub config: String,
    pub repositories: String,
}

/// The remote host, as an entry of an SSH client configuration would give it.
#[derive(Debug, PartialEq, Eq, Clone)]
pub struct Ssh {
    pub host: String,
    pub host_name: String,
    pub user: String,
    pub identity_file: String,
}

/// One remote repository: the account that owns it and its name.
#[derive(Debug, PartialEq, Eq, Clone)]
pub struct Repo {
    pub namespace: String,
    pub project: String,
}

/// Scheduling hints for an outside scheduler.
#[derive(Debug, PartialEq, Eq, Clone)]
pub struct Sync {
    pub enabled: bool,
    pub cron: String,
}

/// The whole workspace description.
#[derive(Debug, PartialEq, Eq, Clone)]
pub struct Config {
    pub paths: Paths,
    pub ssh: Ssh,
    pub repositories: Vec<Repo>,
    pub sync: Sync,
}

/// The roles a path can play in a workspace.
#[derive(Debug, PartialEq, Eq, Clone, Copy)]
pub enum PathType {
    Space,
    Config,
    Repositories,
    Key,
}

/// Why a workspace description is refused.
#[derive(Debug, PartialEq, Eq, Clone, Copy)]
pub enum ConfigError {
    /// The space root is the empty string.
    EmptySpace,
    /// The configuration file's name would leave the space root.
    ConfigName,
    /// The repository store's name would leave the space root.
    StoreName,
    /// The repository at this position has an empty or escaping namespace
    /// or project.
    Repository(usize),
}

pub struct PathsView {
    pub space: Seq<char>,
    pub config: Seq<char>,
    pub repositories: Seq<char>,
}

pub struct SshView {
    pub host: Seq<char>,
    pub host_name: Seq<char>,
    pub user: Seq<char>,
    pub identity_file: Seq<char>,
}

pub struct RepoView {
    pub namespace: Seq<char>,
    pub project: Seq<char>,
}

pub struct SyncView {
    pub enabled: bool,
    pub cron: Seq<char>,
}

pub struct ConfigView {
    pub paths: PathsView,
    pub ssh: SshView,
    pub repositories: Seq<RepoView>,
    pub sync: SyncView,
}

impl View for Paths {
    type V = PathsView;

    open spec fn view(&self) -> PathsView {
        PathsView { space: self.space@, config: self.config@, repositories: self.repositories@ }
    }
}

impl View for Ssh {
    type V = SshView;

    open spec fn view(&self) -> SshView {
        SshView {
            host: self.host@,
            host_name: self.host_name@,
            user: self.user@,
            identity_file: self.identity_file@,
        }
    }
}

impl View for Repo {
    type V = RepoView;

    open spec fn view(&self) -> RepoView {
        RepoView { namespace: self.namespace@, project: self.project@ }
    }
}

impl View for Sync {
    type V = SyncView;

    open spec fn view(&self) -> SyncView {
        SyncView { enabled: self.enabled, cron: self.cron@ }
    }
}

/// The views of a list of repositories, in order.
pub open spec fn repo_views(repos: Seq<Repo>) -> Seq<RepoView> {
    Seq::new(repos.len(), |i: int| repos[i]@)
}

impl View for Config {
    type V = ConfigView;

    open spec fn view(&self) -> ConfigView {
        ConfigView {
            paths: self.paths@,
            ssh: self.ssh@,
            repositories: repo_views(self.repositories@),
            sync: self.sync@,
        }
    }
}

impl PathsView {
    /// The layout every new space starts with.
    pub open spec fn standard() -> PathsView {
        PathsView { space: ".space"@, config: "config.json"@, repositories: "repositories"@ }
    }
}

impl RepoView {
    /// Both parts are names that stay inside the directory they are
    /// appended to.
    pub open spec fn wf(self) -> bool {
        is_contained_name(self.namespace) && is_contained_name(self.project)
    }

    /// The address the repository is fetched from on `host_name`:
    /// `git@{host_name}:{namespace}/{project}`.
    pub open spec fn remote_uri(self, host_name: Seq<char>) -> Seq<char> {
        "git@"@ + host_name + ":"@ + joined(self.namespace, self.project)
    }

    /// The directory the repository is cloned into below `store`.
    pub open spec fn destination(self, store: Seq<char>) -> Seq<char> {
        joined(store, self.project)
    }
}

/// The private key used when neither the configuration nor the caller names
/// one: `.ssh/id_rsa` in the home directory, written with `~` where the home
/// directory is not known.
pub open spec fn standard_identity_file(home: Option<Seq<char>>) -> Seq<char> {
    match home {
        Some(h) => pushed(h, ".ssh/id_rsa"@),
        None => pushed("~"@, ".ssh/id_rsa"@),
    }
}

impl ConfigView {
    /// The description a new space is created with, for a given home
    /// directory.
    pub open spec fn standard(home: Option<Seq<char>>) -> ConfigView {
        ConfigView {
            paths: PathsView::standard(),
            ssh: SshView {
                host: "github"@,
                host_name: "github.com"@,
                user: "git"@,
                identity_file: standard_identity_file(home),
            },
            repositories: seq![
                RepoView { namespace: "capswan"@, project: "cli-gitspace"@ },
                RepoView { namespace: "capswan"@, project: "cli-ftr"@ },
            ],
            sync: SyncView { enabled: true, cron: "30 0 * * *"@ },
        }
    }

    /// The concrete path that plays the role `which`.
    pub open spec fn path(self, which: PathType) -> Seq<char> {
        match which {
            PathType::Space => self.paths.space,
            PathType::Config => joined(self.paths.space, self.paths.config),
            PathType::Repositories => joined(self.paths.space, self.paths.repositories),
            PathType::Key => self.ssh.identity_file,
        }
    }

    /// The first defect of the description, in the order: space root, file
    /// name, store name, repositories from the front.
    pub open spec fn defect(self) -> Option<ConfigError> {
        if self.paths.space.len() == 0 {
            Some(ConfigError::EmptySpace)
        } else if !is_contained_name(self.paths.config) {
            Some(ConfigError::ConfigName)
        } else if !is_contained_name(self.paths.repositories) {
            Some(ConfigError::StoreName)
        } else if exists|i: int| self.bad_repository(i) {
            Some(ConfigError::Repository(self.first_bad_repository() as usize))
        } else {
            None
        }
    }

    /// Position `i` holds a repository that is not well formed.
    pub open spec fn bad_repository(self, i: int) -> bool {
        0 <= i < self.repositories.len() && !self.repositories[i].wf()
    }

    /// The least position of a repository that is not well formed.
    pub open spec fn first_bad_repository(self) -> int {
        choose|i: int| self.bad_repository(i) && forall|j: int| 0 <= j < i ==> !self.bad_repository(j)
    }

    /// The space root is not empty, the two names inside it stay inside it,
    /// and every repository is well formed.
    pub open spec fn wf(self) -> bool {
        &&& self.paths.space.len() > 0
        &&& is_contained_name(self.paths.config)
        &&& is_contained_name(self.paths.repositories)
        &&& forall|i: int| 0 <= i < self.repositories.len() ==> (#[trigger] self.repositories[i]).wf()
    }
}


/// Asks `dirs::home_dir` for the user's home directory and hands it back as
/// text. Nothing is claimed of the answer: it depends on the environment, and
/// is absent where no home directory is known or its path is not valid
/// Unicode.
#[verifier::external_body]
fn home_directory() -> (home: Option<String>) {
    let home = dirs::home_dir()?;
    Some(home.to_str()?.to_string())
}

/// The view of an optional string.
pub open spec fn opt_text(s: Option<String>) -> Option<Seq<char>> {
    match s {
        Some(t) => Some(t@),
        None => None,
    }
}

impl Default for Paths {
    fn default() -> (r: Paths)
        ensures
            r@ == PathsView::standard(),
    {
        Paths {
            space: String::from_str(".space"),
            config: String::from_str("config.json"),
            repositories: String::from_str("repositories"),
        }
    }
}

impl Default for Config {
    /// The standard description for the home directory of the current user.
    fn default() -> (r: Config)
        ensures
            exists|home: Option<Seq<char>>| r@ == #[trigger] ConfigView::standard(home),
    {
        let home = home_directory();
        let r = Config::for_home(home);
        assert(r@ == ConfigView::standard(opt_text(home)));
        r
    }
}

impl Repo {
    pub fn new(namespace: &str, project: &str) -> (r: Repo)
        ensures
            r@ == (RepoView { namespace: namespace@, project: project@ }),
    {
        Repo { namespace: String::from_str(namespace), project: String::from_str(project) }
    }

    /// Decides [`RepoView::wf`].
    pub fn is_well_formed(&self) -> (r: bool)
        ensures
            r == self@.wf(),
    {
        contained_name(self.namespace.as_str()) && contained_name(self.project.as_str())
    }

    /// The address to fetch from: `git@{host_name}:{namespace}/{project}`.
    pub fn remote_uri(&self, host_name: &str) -> (r: String)
        ensures
            r@ == self@.remote_uri(host_name@),
    {
        let tail = join(self.namespace.as_str(), self.project.as_str());
        let mut r = String::from_str("git@");
        r.append(host_name);
        r.append(":");
        r.append(tail.as_str());
        r
    }

    /// The directory to clone into, below the repository store `store`.
    pub fn destination(&self, store: &str) -> (r: String)
        ensures
            r@ == self@.destination(store@),
    {
        join(store, self.project.as_str())
    }
}

impl Config {
    /// The standard description for a given home directory.
    pub fn for_home(home: Option<String>) -> (r: Config)
        ensures
            r@ == ConfigView::standard(opt_text(home)),
    {
        let identity_file = match home {
            Some(h) => push(h.as_str(), ".ssh/id_rsa"),
            None => push("~", ".ssh/id_rsa"),
        };
        let mut repositories: Vec<Repo> = Vec::new();
        repositories.push(Repo::new("capswan", "cli-gitspace"));
        repositories.push(Repo::new("capswan", "cli-ftr"));
        let r = Config {
            paths: Paths::default(),
            ssh: Ssh {
                host: String::from_str("github"),
                host_name: String::from_str("github.com"),
                user: String::from_str("git"),
                identity_file,
            },
            repositories,
            sync: Sync { enabled: true, cron: String::from_str("30 0 * * *") },
        };
        assert(r@.repositories =~= ConfigView::standard(opt_text(home)).repositories);
        r
    }

    /// Checks the description and names its first defect.
    pub fn validate(&self) -> (r: Result<(), ConfigError>)
        ensures
            r.is_ok() <==> self@.wf(),
            r == match self@.defect() {
                Some(e) => Err::<(), ConfigError>(e),
                None => Ok(()),
            },
    {
        if self.paths.space.as_str().unicode_len() == 0 {
            return Err(ConfigError::EmptySpace);
        }
        if !contained_name(self.paths.config.as_str()) {
            return Err(ConfigError::ConfigName);
        }
        if !contained_name(self.paths.repositories.as_str()) {
            return Err(ConfigError::StoreName);
        }
        let ghost v = self@;
        let mut i: usize = 0;
        while i < self.repositories.len()
            invariant
                v == self@,
                v.paths.space.len() > 0,
                is_contained_name(v.paths.config),
                is_contained_name(v.paths.repositories),
                i <= self.repositories.len(),
                forall|j: int| 0 <= j < i ==> !v.bad_repository(j),
            decreases self.repositories.len() - i,
        {
            if !self.repositories[i].is_well_formed() {
                proof {
                    assert(v.bad_repository(i as int));
                    let k = v.first_bad_repository();
                    assert(v.bad_repository(k) && forall|j: int| 0 <= j < k ==> !v.bad_repository(j));
                    assert(k == i as int);
                }
                return Err(ConfigError::Repository(i));
            }
            i += 1;
        }
        proof {
            assert forall|j: int| !v.bad_repository(j) by {
                if 0 <= j < i {
                }
            }
            assert forall|j: int| 0 <= j < v.repositories.len() implies (#[trigger] v.repositories[j]).wf() by {
                assert(!v.bad_repository(j));
            }
        }
        Ok(())
    }
}

} // verus!

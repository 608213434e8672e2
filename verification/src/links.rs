//! Projecting the cloned repositories into another directory as symbolic
//! links, and taking those links away again.
use vstd::prelude::*;
use crate::config::{Repo, RepoView, repo_views};
use crate::error::FilesystemError;
use crate::text::{join, joined, same};

verus! {

/// One link: `destination` is to point to `source`.
#[derive(Debug, PartialEq, Eq, Clone)]
pub struct SymlinkEntry {
    /// A directory inside the repository store.
    pub source: String,
    /// A name inside the directory that is projected into.
    pub destination: String,
}

pub struct SymlinkEntryView {
    pub source: Seq<char>,
    pub destination: Seq<char>,
}

impl View for SymlinkEntry {
    type V = SymlinkEntryView;

    open spec fn view(&self) -> SymlinkEntryView {
        SymlinkEntryView { source: self.source@, destination: self.destination@ }
    }
}

/// What stands at a name at which a link is wanted.
#[derive(Debug, PartialEq, Eq, Clone)]
pub enum Occupant {
    /// Nothing.
    Nothing,
    /// A symbolic link to the path given.
    Link(String),
    /// A file, a directory, or anything else that is not a symbolic link.
    Other,
}

pub enum OccupantView {
    Nothing,
    Link(Seq<char>),
    Other,
}

impl View for Occupant {
    type V = OccupantView;

    open spec fn view(&self) -> OccupantView {
        match self {
            Occupant::Nothing => OccupantView::Nothing,
            Occupant::Link(target) => OccupantView::Link(target@),
            Occupant::Other => OccupantView::Other,
        }
    }
}

/// What to do at one link's destination.
#[derive(Debug, PartialEq, Eq, Clone, Copy, Structural)]
pub enum LinkDecision {
    /// Create the link.
    Create,
    /// The right link is there already: leave it.
    Keep,
    /// Something else has the name: touch nothing, report the error.
    Refuse(FilesystemError),
}

/// An entry of a directory, as far as removing links is concerned.
#[derive(Debug, PartialEq, Eq, Clone)]
pub struct DirEntry {
    pub name: String,
    pub is_symlink: bool,
}

pub struct DirEntryView {
    pub name: Seq<char>,
    pub is_symlink: bool,
}

impl View for DirEntry {
    type V = DirEntryView;

    open spec fn view(&self) -> DirEntryView {
        DirEntryView { name: self.name@, is_symlink: self.is_symlink }
    }
}

/// The views of a directory listing, in order.
pub open spec fn entry_views(entries: Seq<DirEntry>) -> Seq<DirEntryView> {
    Seq::new(entries.len(), |i: int| entries[i]@)
}

/// The views of a list of links, in order.
pub open spec fn link_views(links: Seq<SymlinkEntry>) -> Seq<SymlinkEntryView> {
    Seq::new(links.len(), |i: int| links[i]@)
}

/// The link for one repository: from its name in `target` to its directory
/// in `store`.
pub open spec fn link_for(repo: RepoView, store: Seq<char>, target: Seq<char>) -> SymlinkEntryView {
    SymlinkEntryView { source: joined(store, repo.project), destination: joined(target, repo.project) }
}

/// The links for a list of repositories, one each, in order.
pub open spec fn links_for(repos: Seq<RepoView>, store: Seq<char>, target: Seq<char>) -> Seq<
    SymlinkEntryView,
> {
    Seq::new(repos.len(), |i: int| link_for(repos[i], store, target))
}

/// A link is created where nothing is, kept where it is already in place,
/// and refused where anything else has the name.
pub open spec fn link_decision(source: Seq<char>, occupant: OccupantView) -> LinkDecision {
    match occupant {
        OccupantView::Nothing => LinkDecision::Create,
        OccupantView::Link(t) => if t == source {
            LinkDecision::Keep
        } else {
            LinkDecision::Refuse(FilesystemError::Occupied)
        },
        OccupantView::Other => LinkDecision::Refuse(FilesystemError::Occupied),
    }
}

/// `name` is the project of one of `repos`.
pub open spec fn is_project(repos: Seq<RepoView>, name: Seq<char>) -> bool {
    exists|i: int| 0 <= i < repos.len() && (#[trigger] repos[i]).project == name
}

/// An entry is taken away only if it is a symbolic link and bears the name
/// of a configured project.
pub open spec fn is_removable(repos: Seq<RepoView>, entry: DirEntryView) -> bool {
    entry.is_symlink && is_project(repos, entry.name)
}

/// The names to take away from a listing, in the order of the listing.
pub open spec fn removable(repos: Seq<RepoView>, entries: Seq<DirEntryView>) -> Seq<Seq<char>>
    decreases entries.len(),
{
    if entries.len() == 0 {
        Seq::empty()
    } else if is_removable(repos, entries.last()) {
        removable(repos, entries.drop_last()).push(entries.last().name)
    } else {
        removable(repos, entries.drop_last())
    }
}

/// The directory that links are projected into when the caller names none:
/// the current directory as the system reports it, else as the environment
/// names it, else `.`.
pub open spec fn working_directory(current: Option<Seq<char>>, named: Option<Seq<char>>) -> Seq<char> {
    match current {
        Some(dir) => dir,
        None => match named {
            Some(dir) => dir,
            None => "."@,
        },
    }
}

/// Chooses the directory to project into from what is known of the current
/// directory.
pub fn cwd(current: Option<String>, named: Option<String>) -> (r: String)
    ensures
        r@ == working_directory(
            crate::config::opt_text(current),
            crate::config::opt_text(named),
        ),
{
    match current {
        Some(dir) => dir,
        None => match named {
            Some(dir) => dir,
            None => String::from_str("."),
        },
    }
}

/// The links to create for `repositories` kept in `store`, projected into
/// `target`: one for each repository, in order.
pub fn planned_links(repositories: &Vec<Repo>, store: &str, target: &str) -> (r: Vec<SymlinkEntry>)
    ensures
        link_views(r@) == links_for(repo_views(repositories@), store@, target@),
        r.len() == repositories.len(),
{
    let mut links: Vec<SymlinkEntry> = Vec::new();
    let mut i: usize = 0;
    while i < repositories.len()
        invariant
            i <= repositories.len(),
            links.len() == i,
            forall|j: int| 0 <= j < i ==> links[j]@ == link_for(repositories[j]@, store@, target@),
        decreases repositories.len() - i,
    {
        let project = repositories[i].project.as_str();
        links.push(SymlinkEntry { source: join(store, project), destination: join(target, project) });
        i += 1;
    }
    assert(link_views(links@) =~= links_for(repo_views(repositories@), store@, target@));
    links
}

/// Decides what to do at a link's destination, given what is there.
pub fn decide_link(entry: &SymlinkEntry, occupant: &Occupant) -> (r: LinkDecision)
    ensures
        r == link_decision(entry@.source, occupant@),
{
    match occupant {
        Occupant::Nothing => LinkDecision::Create,
        Occupant::Link(target) => {
            if same(target.as_str(), entry.source.as_str()) {
                LinkDecision::Keep
            } else {
                LinkDecision::Refuse(FilesystemError::Occupied)
            }
        },
        Occupant::Other => LinkDecision::Refuse(FilesystemError::Occupied),
    }
}

/// Whether `name` is the project of one of `repositories`.
pub fn names_project(repositories: &Vec<Repo>, name: &str) -> (r: bool)
    ensures
        r == is_project(repo_views(repositories@), name@),
{
    let ghost repos = repo_views(repositories@);
    let mut i: usize = 0;
    while i < repositories.len()
        invariant
            repos == repo_views(repositories@),
            i <= repositories.len(),
            forall|j: int| 0 <= j < i ==> (#[trigger] repos[j]).project != name@,
        decreases repositories.len() - i,
    {
        if same(repositories[i].project.as_str(), name) {
            assert(repos[i as int].project == name@);
            return true;
        }
        i += 1;
    }
    false
}

/// The names to take away from the directory whose listing is `entries`:
/// the symbolic links that bear the name of a configured project, and no
/// other entry. Their number is the number of links that will be removed.
pub fn removable_links(entries: &Vec<DirEntry>, repositories: &Vec<Repo>) -> (r: Vec<String>)
    ensures
        r@.len() == removable(repo_views(repositories@), entry_views(entries@)).len(),
        forall|k: int| 0 <= k < r@.len() ==> (#[trigger] r@[k])@ == removable(
            repo_views(repositories@),
            entry_views(entries@),
        )[k],
{
    let ghost repos = repo_views(repositories@);
    let ghost all = entry_views(entries@);
    let mut names: Vec<String> = Vec::new();
    let mut i: usize = 0;
    while i < entries.len()
        invariant
            repos == repo_views(repositories@),
            all == entry_views(entries@),
            i <= entries.len(),
            names@.len() == removable(repos, all.take(i as int)).len(),
            forall|k: int| 0 <= k < names@.len() ==> (#[trigger] names@[k])@ == removable(
                repos,
                all.take(i as int),
            )[k],
        decreases entries.len() - i,
    {
        let entry = &entries[i];
        proof {
            let next = all.take(i + 1);
            assert(next.drop_last() =~= all.take(i as int));
            assert(next.last() == entry@);
        }
        if entry.is_symlink && names_project(repositories, entry.name.as_str()) {
            names.push(entry.name.clone());
        }
        i += 1;
    }
    assert(all.take(i as int) =~= all);
    names
}

/// What stands at `name` once the links for `repos` have been projected,
/// given what stood there before. `created` says whether creating a link, where
/// one was decided on, succeeded.
pub open spec fn after_projection(
    before: OccupantView,
    name: Seq<char>,
    repos: Seq<RepoView>,
    store: Seq<char>,
    created: bool,
) -> OccupantView {
    if is_project(repos, name) && created && link_decision(joined(store, name), before)
        == LinkDecision::Create {
        OccupantView::Link(joined(store, name))
    } else {
        before
    }
}

/// What stands at `name` once the removable links have been taken away,
/// given what stood there before.
pub open spec fn after_removal(before: OccupantView, name: Seq<char>, repos: Seq<RepoView>) -> OccupantView {
    if is_removable(repos, DirEntryView { name, is_symlink: before is Link }) {
        OccupantView::Nothing
    } else {
        before
    }
}

/// Projection followed by removal, name by name: a name that is no
/// configured project keeps what it had; a project's name that held nothing
/// or a link holds nothing afterwards; and a file or directory that had a
/// project's name is still there, untouched.
pub proof fn lemma_project_then_remove(
    before: OccupantView,
    name: Seq<char>,
    repos: Seq<RepoView>,
    store: Seq<char>,
    created: bool,
)
    ensures
        ({
            let between = after_projection(before, name, repos, store, created);
            let after = after_removal(between, name, repos);
            &&& !is_project(repos, name) ==> between == before && after == before
            &&& is_project(repos, name) && !(before is Other) ==> after is Nothing
            &&& before is Other ==> between == before && after == before
        }),
{
}

/// The names that are taken away are exactly the removable entries of the
/// listing: nothing else is named, and none of them is left out.
pub proof fn lemma_removable_exact(repos: Seq<RepoView>, entries: Seq<DirEntryView>, name: Seq<char>)
    ensures
        removable(repos, entries).contains(name) <==> exists|i: int|
            0 <= i < entries.len() && (#[trigger] entries[i]).name == name && is_removable(
                repos,
                entries[i],
            ),
    decreases entries.len(),
{
    let picked = removable(repos, entries);
    if entries.len() > 0 {
        let rest = entries.drop_last();
        let last = entries.last();
        lemma_removable_exact(repos, rest, name);
        if picked.contains(name) {
            let k = choose|k: int| 0 <= k < picked.len() && picked[k] == name;
            if is_removable(repos, last) && k == picked.len() - 1 {
                assert(entries[entries.len() - 1].name == name);
            } else {
                assert(removable(repos, rest)[k] == name);
                let i = choose|i: int|
                    0 <= i < rest.len() && (#[trigger] rest[i]).name == name && is_removable(
                        repos,
                        rest[i],
                    );
                assert(entries[i] == rest[i]);
            }
        }
        if exists|i: int|
            0 <= i < entries.len() && (#[trigger] entries[i]).name == name && is_removable(
                repos,
                entries[i],
            ) {
            let i = choose|i: int|
                0 <= i < entries.len() && (#[trigger] entries[i]).name == name && is_removable(
                    repos,
                    entries[i],
                );
            if i == entries.len() - 1 {
                assert(picked[picked.len() - 1] == name);
            } else {
                assert(rest[i] == entries[i]);
                let k = choose|k: int|
                    0 <= k < removable(repos, rest).len() && removable(repos, rest)[k] == name;
                assert(picked[k] == name);
            }
        }
    }
}

} // verus!

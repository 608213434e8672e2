//! Fetching one repository: whether to clone it, and what the attempt
//! amounts to. The caller looks at the disk and talks to the remote; the
//! decisions are taken here.
use vstd::prelude::*;
use crate::error::FetchError;

verus! {

/// What was found at a directory's path.
#[derive(Debug, PartialEq, Eq, Clone, Copy, Structural)]
pub enum DirState {
    /// Nothing is there.
    Missing,
    /// Something is there whose entries cannot be listed.
    Unreadable,
    /// A directory without entries.
    Empty,
    /// A directory with at least one entry.
    Populated,
}

/// How one attempt to clone ended, as the caller saw it.
#[derive(Debug, PartialEq, Eq, Clone, Copy, Structural)]
pub enum CloneReport {
    /// The working tree is in place.
    Cloned,
    /// The destination directory could not be created.
    DirectoryRefused,
    /// The remote refused the credential.
    CredentialRejected,
    /// Any other failure of the transfer.
    TransportFailed,
}

/// What to do about one repository once its surroundings are known.
#[derive(Debug, PartialEq, Eq, Clone, Copy, Structural)]
pub enum FetchDecision {
    /// Give up with this error; nothing is touched.
    Fail(FetchError),
    /// Leave the destination as it is; nothing is fetched.
    Skip,
    /// Create the destination and clone into it.
    Clone,
}

/// The result of fetching one repository.
#[derive(Debug, PartialEq, Eq, Clone)]
pub enum CloneOutcome {
    /// Nothing was fetched, for the reason given.
    Skipped(String),
    /// The repository was cloned into the directory given.
    Cloned(String),
    /// The repository was not fetched.
    Failed(FetchError),
}

pub enum CloneOutcomeView {
    Skipped(Seq<char>),
    Cloned(Seq<char>),
    Failed(FetchError),
}

impl View for CloneOutcome {
    type V = CloneOutcomeView;

    open spec fn view(&self) -> CloneOutcomeView {
        match self {
            CloneOutcome::Skipped(reason) => CloneOutcomeView::Skipped(reason@),
            CloneOutcome::Cloned(destination) => CloneOutcomeView::Cloned(destination@),
            CloneOutcome::Failed(e) => CloneOutcomeView::Failed(*e),
        }
    }
}

/// The views of a list of outcomes, in order.
pub open spec fn outcome_views(outcomes: Seq<CloneOutcome>) -> Seq<CloneOutcomeView> {
    Seq::new(outcomes.len(), |i: int| outcomes[i]@)
}

/// The state of a directory, from whether its path exists and, where its
/// entries could be listed, whether there is a first one.
pub open spec fn dir_state(exists: bool, first_entry: Option<bool>) -> DirState {
    if !exists {
        DirState::Missing
    } else {
        match first_entry {
            None => DirState::Unreadable,
            Some(false) => DirState::Empty,
            Some(true) => DirState::Populated,
        }
    }
}

/// The decision for one repository: without a repository store there is
/// nothing to fetch into; a populated destination is left alone; one that
/// cannot be listed is an error; a missing or empty one is cloned into.
pub open spec fn fetch_decision(store_exists: bool, destination: DirState) -> FetchDecision {
    if !store_exists {
        FetchDecision::Fail(FetchError::Path)
    } else {
        match destination {
            DirState::Populated => FetchDecision::Skip,
            DirState::Unreadable => FetchDecision::Fail(FetchError::Filesystem),
            DirState::Missing | DirState::Empty => FetchDecision::Clone,
        }
    }
}

/// The reason given for every skip.
pub open spec fn skip_reason() -> Seq<char> {
    "already present"@
}

/// The outcome of a clone attempt into `destination`.
pub open spec fn clone_outcome(destination: Seq<char>, report: CloneReport) -> CloneOutcomeView {
    match report {
        CloneReport::Cloned => CloneOutcomeView::Cloned(destination),
        CloneReport::DirectoryRefused => CloneOutcomeView::Failed(FetchError::Filesystem),
        CloneReport::CredentialRejected => CloneOutcomeView::Failed(FetchError::Auth),
        CloneReport::TransportFailed => CloneOutcomeView::Failed(FetchError::Network),
    }
}

/// The outcome of fetching into `destination`, from everything that was
/// seen on the way. The report counts only where a clone was decided on.
pub open spec fn fetch_outcome(
    destination: Seq<char>,
    store_exists: bool,
    state: DirState,
    report: CloneReport,
) -> CloneOutcomeView {
    match fetch_decision(store_exists, state) {
        FetchDecision::Fail(e) => CloneOutcomeView::Failed(e),
        FetchDecision::Skip => CloneOutcomeView::Skipped(skip_reason()),
        FetchDecision::Clone => clone_outcome(destination, report),
    }
}

impl DirState {
    /// Classifies a directory from two observations.
    pub fn observe(exists: bool, first_entry: Option<bool>) -> (r: DirState)
        ensures
            r == dir_state(exists, first_entry),
    {
        if !exists {
            DirState::Missing
        } else {
            match first_entry {
                None => DirState::Unreadable,
                Some(false) => DirState::Empty,
                Some(true) => DirState::Populated,
            }
        }
    }

    /// Whether this is a directory that exists and has no entries.
    pub fn dir_is_empty(&self) -> (r: bool)
        ensures
            r == (*self == DirState::Empty),
    {
        match self {
            DirState::Empty => true,
            _ => false,
        }
    }
}

/// Decides what to do about one repository.
pub fn decide_fetch(store_exists: bool, destination: DirState) -> (r: FetchDecision)
    ensures
        r == fetch_decision(store_exists, destination),
        r == FetchDecision::Skip <==> store_exists && destination == DirState::Populated,
        r == FetchDecision::Clone <==> store_exists && (destination == DirState::Missing
            || destination == DirState::Empty),
{
    if !store_exists {
        FetchDecision::Fail(FetchError::Path)
    } else {
        match destination {
            DirState::Populated => FetchDecision::Skip,
            DirState::Unreadable => FetchDecision::Fail(FetchError::Filesystem),
            DirState::Missing => FetchDecision::Clone,
            DirState::Empty => FetchDecision::Clone,
        }
    }
}

/// The outcome recorded for a skipped repository.
pub fn skipped() -> (r: CloneOutcome)
    ensures
        r@ == CloneOutcomeView::Skipped(skip_reason()),
{
    CloneOutcome::Skipped(String::from_str("already present"))
}

/// Turns the report of a clone attempt into the repository's outcome.
pub fn conclude_clone(destination: String, report: CloneReport) -> (r: CloneOutcome)
    ensures
        r@ == clone_outcome(destination@, report),
        r@ is Cloned <==> report == CloneReport::Cloned,
{
    match report {
        CloneReport::Cloned => CloneOutcome::Cloned(destination),
        CloneReport::DirectoryRefused => CloneOutcome::Failed(FetchError::Filesystem),
        CloneReport::CredentialRejected => CloneOutcome::Failed(FetchError::Auth),
        CloneReport::TransportFailed => CloneOutcome::Failed(FetchError::Network),
    }
}

} // verus!

//! Synchronizing a whole workspace: one repository after the other, each to
//! its own outcome, whatever happened to the ones before it.
//!
//! A [`SyncRun`] never touches the disk or the network. It says what it needs
//! next ([`SyncRun::pending`]), the caller does that and reports back
//! ([`SyncRun::advance`]), until the run is finished.
use vstd::prelude::*;
use crate::config::{Config, ConfigError, ConfigView, PathType, Repo, RepoView, repo_views};
use crate::fetch::{
    CloneOutcome, CloneOutcomeView, CloneReport, DirState, FetchDecision, clone_outcome,
    conclude_clone, decide_fetch, fetch_decision, outcome_views, skip_reason, skipped,
};

verus! {

/// What a run is waiting for, for the repository under its cursor.
#[derive(Debug, PartialEq, Eq, Clone, Copy, Structural)]
pub enum Phase {
    /// A look at the repository store and at the destination.
    Probing,
    /// The end of a clone attempt.
    Cloning,
    /// The removal of what a failed attempt left behind.
    Discarding,
}

/// What the caller is asked to do next.
#[derive(Debug, PartialEq, Eq, Clone)]
pub enum SyncRequest {
    /// Find out whether `store` exists, and in what state `destination` is.
    Probe { store: String, destination: String },
    /// Create `destination` with its parents and clone `uri` into it,
    /// authenticating with the private key at `key_path`.
    Clone { uri: String, destination: String, key_path: String },
    /// Remove `destination` and everything in it.
    Discard { destination: String },
    /// Nothing: every repository has its outcome.
    Finished,
}

pub enum SyncRequestView {
    Probe { store: Seq<char>, destination: Seq<char> },
    Clone { uri: Seq<char>, destination: Seq<char>, key_path: Seq<char> },
    Discard { destination: Seq<char> },
    Finished,
}

impl View for SyncRequest {
    type V = SyncRequestView;

    open spec fn view(&self) -> SyncRequestView {
        match self {
            SyncRequest::Probe { store, destination } => SyncRequestView::Probe {
                store: store@,
                destination: destination@,
            },
            SyncRequest::Clone { uri, destination, key_path } => SyncRequestView::Clone {
                uri: uri@,
                destination: destination@,
                key_path: key_path@,
            },
            SyncRequest::Discard { destination } => SyncRequestView::Discard {
                destination: destination@,
            },
            SyncRequest::Finished => SyncRequestView::Finished,
        }
    }
}

/// What the caller reports back.
#[derive(Debug, PartialEq, Eq, Clone, Copy, Structural)]
pub enum SyncEvent {
    /// The answer to a `Probe`.
    Probed { store_exists: bool, destination: DirState },
    /// The answer to a `Clone`.
    CloneEnded(CloneReport),
    /// The answer to a `Discard`, whether or not anything was there.
    Discarded,
}

/// A run over the repositories of one workspace.
pub struct SyncRun {
    host_name: String,
    store: String,
    key_path: String,
    repositories: Vec<Repo>,
    cursor: usize,
    phase: Phase,
    outcomes: Vec<CloneOutcome>,
}

pub struct SyncRunView {
    pub host_name: Seq<char>,
    pub store: Seq<char>,
    pub key_path: Seq<char>,
    pub repositories: Seq<RepoView>,
    /// How many repositories are done with.
    pub cursor: nat,
    pub phase: Phase,
    pub outcomes: Seq<CloneOutcomeView>,
}

impl SyncRunView {
    /// The run that is about to look at the first repository of `config`,
    /// with the key at `key_path`.
    pub open spec fn initial(config: ConfigView, key_path: Seq<char>) -> SyncRunView {
        SyncRunView {
            host_name: config.ssh.host_name,
            store: config.path(PathType::Repositories),
            key_path,
            repositories: config.repositories,
            cursor: 0,
            phase: Phase::Probing,
            outcomes: Seq::empty(),
        }
    }

    /// The cursor is inside the list, and there is one outcome for each
    /// repository before it, and for the one under it once its clone has
    /// failed.
    pub open spec fn wf(self) -> bool {
        &&& self.cursor <= self.repositories.len()
        &&& match self.phase {
            Phase::Probing => self.outcomes.len() == self.cursor,
            Phase::Cloning => self.outcomes.len() == self.cursor && !self.finished(),
            Phase::Discarding => self.outcomes.len() == self.cursor + 1 && !self.finished(),
        }
    }

    /// Every repository is done with.
    pub open spec fn finished(self) -> bool {
        self.cursor >= self.repositories.len()
    }

    /// The directory of the repository under the cursor.
    pub open spec fn destination(self) -> Seq<char> {
        self.repositories[self.cursor as int].destination(self.store)
    }

    /// What the caller has to do next.
    pub open spec fn pending(self) -> SyncRequestView {
        if self.finished() {
            SyncRequestView::Finished
        } else {
            match self.phase {
                Phase::Probing => SyncRequestView::Probe {
                    store: self.store,
                    destination: self.destination(),
                },
                Phase::Cloning => SyncRequestView::Clone {
                    uri: self.repositories[self.cursor as int].remote_uri(self.host_name),
                    destination: self.destination(),
                    key_path: self.key_path,
                },
                Phase::Discarding => SyncRequestView::Discard { destination: self.destination() },
            }
        }
    }

    /// `event` answers the pending request.
    pub open spec fn accepts(self, event: SyncEvent) -> bool {
        !self.finished() && match event {
            SyncEvent::Probed { .. } => self.phase == Phase::Probing,
            SyncEvent::CloneEnded(_) => self.phase == Phase::Cloning,
            SyncEvent::Discarded => self.phase == Phase::Discarding,
        }
    }

    /// The run with `outcome` recorded for the repository under the cursor,
    /// which then moves on.
    pub open spec fn settled(self, outcome: CloneOutcomeView) -> SyncRunView {
        SyncRunView {
            cursor: self.cursor + 1,
            phase: Phase::Probing,
            outcomes: self.outcomes.push(outcome),
            ..self
        }
    }

    /// The run after an event that it accepts.
    pub open spec fn after(self, event: SyncEvent) -> SyncRunView {
        match event {
            SyncEvent::Probed { store_exists, destination } => match fetch_decision(
                store_exists,
                destination,
            ) {
                FetchDecision::Fail(e) => self.settled(CloneOutcomeView::Failed(e)),
                FetchDecision::Skip => self.settled(CloneOutcomeView::Skipped(skip_reason())),
                FetchDecision::Clone => SyncRunView { phase: Phase::Cloning, ..self },
            },
            SyncEvent::CloneEnded(report) => match report {
                CloneReport::Cloned | CloneReport::DirectoryRefused => self.settled(
                    clone_outcome(self.destination(), report),
                ),
                CloneReport::CredentialRejected | CloneReport::TransportFailed => SyncRunView {
                    phase: Phase::Discarding,
                    outcomes: self.outcomes.push(clone_outcome(self.destination(), report)),
                    ..self
                },
            },
            SyncEvent::Discarded => SyncRunView {
                cursor: self.cursor + 1,
                phase: Phase::Probing,
                ..self
            },
        }
    }
}

impl View for SyncRun {
    type V = SyncRunView;

    closed spec fn view(&self) -> SyncRunView {
        SyncRunView {
            host_name: self.host_name@,
            store: self.store@,
            key_path: self.key_path@,
            repositories: repo_views(self.repositories@),
            cursor: self.cursor as nat,
            phase: self.phase,
            outcomes: outcome_views(self.outcomes@),
        }
    }
}


impl SyncRun {
    /// Whether every repository has its outcome.
    pub fn is_finished(&self) -> (r: bool)
        ensures
            r == self@.finished(),
    {
        self.cursor >= self.repositories.len()
    }

    /// What the caller has to do next.
    pub fn pending(&self) -> (r: SyncRequest)
        ensures
            r@ == self@.pending(),
    {
        if self.cursor >= self.repositories.len() {
            return SyncRequest::Finished;
        }
        let repo = &self.repositories[self.cursor];
        let destination = repo.destination(self.store.as_str());
        match self.phase {
            Phase::Probing => SyncRequest::Probe { store: self.store.clone(), destination },
            Phase::Cloning => SyncRequest::Clone {
                uri: repo.remote_uri(self.host_name.as_str()),
                destination,
                key_path: self.key_path.clone(),
            },
            Phase::Discarding => SyncRequest::Discard { destination },
        }
    }

    /// Takes the answer to the pending request. An event that does not answer
    /// it is refused, and the run stays as it was.
    pub fn advance(&mut self, event: SyncEvent) -> (accepted: bool)
        ensures
            old(self)@.wf() ==> final(self)@.wf(),
            accepted == old(self)@.accepts(event),
            accepted ==> final(self)@ == old(self)@.after(event),
            !accepted ==> final(self)@ == old(self)@,
    {
        if self.cursor >= self.repositories.len() {
            return false;
        }
        match event {
            SyncEvent::Probed { store_exists, destination } => {
                if self.phase != Phase::Probing {
                    return false;
                }
                match decide_fetch(store_exists, destination) {
                    FetchDecision::Fail(e) => {
                        self.settle(CloneOutcome::Failed(e));
                    },
                    FetchDecision::Skip => {
                        self.settle(skipped());
                    },
                    FetchDecision::Clone => {
                        self.phase = Phase::Cloning;
                    },
                }
                true
            },
            SyncEvent::CloneEnded(report) => {
                if self.phase != Phase::Cloning {
                    return false;
                }
                let destination = self.repositories[self.cursor].destination(self.store.as_str());
                let outcome = conclude_clone(destination, report);
                match report {
                    CloneReport::Cloned | CloneReport::DirectoryRefused => {
                        self.settle(outcome);
                    },
                    CloneReport::CredentialRejected | CloneReport::TransportFailed => {
                        self.outcomes.push(outcome);
                        self.phase = Phase::Discarding;
                        assert(outcome_views(self.outcomes@) =~= outcome_views(
                            old(self).outcomes@,
                        ).push(outcome@));
                    },
                }
                true
            },
            SyncEvent::Discarded => {
                if self.phase != Phase::Discarding {
                    return false;
                }
                self.cursor = self.cursor + 1;
                self.phase = Phase::Probing;
                true
            },
        }
    }

    fn settle(&mut self, outcome: CloneOutcome)
        requires
            old(self).cursor < old(self).repositories.len(),
        ensures
            final(self)@ == old(self)@.settled(outcome@),
    {
        self.outcomes.push(outcome);
        self.cursor = self.cursor + 1;
        self.phase = Phase::Probing;
        assert(outcome_views(self.outcomes@) =~= outcome_views(old(self).outcomes@).push(outcome@));
    }

    /// The outcomes recorded so far, in the order of the repositories.
    pub fn outcomes(&self) -> (r: &Vec<CloneOutcome>)
        ensures
            outcome_views(r@) == self@.outcomes,
    {
        &self.outcomes
    }

    /// Ends the run and hands out its outcomes.
    pub fn into_outcomes(self) -> (r: Vec<CloneOutcome>)
        ensures
            outcome_views(r@) == self@.outcomes,
    {
        self.outcomes
    }
}


/// Access to the repositories a workspace description lists.
pub trait ConfigParser {
    /// The repositories, in the order in which they are listed.
    spec fn listed(&self) -> Seq<RepoView>;

    /// Hands out the listed repositories, in order.
    fn get_repos(&self) -> (r: Vec<Repo>)
        ensures
            repo_views(r@) == self.listed(),
    ;
}

impl ConfigParser for Config {
    open spec fn listed(&self) -> Seq<RepoView> {
        self@.repositories
    }

    fn get_repos(&self) -> (r: Vec<Repo>) {
        let mut repositories: Vec<Repo> = Vec::new();
        let mut i: usize = 0;
        while i < self.repositories.len()
            invariant
                i <= self.repositories.len(),
                repositories.len() == i,
                forall|j: int| 0 <= j < i ==> repositories[j]@ == self.repositories[j]@,
            decreases self.repositories.len() - i,
        {
            let repo = &self.repositories[i];
            repositories.push(Repo::new(repo.namespace.as_str(), repo.project.as_str()));
            i += 1;
        }
        assert(repo_views(repositories@) =~= self@.repositories);
        repositories
    }
}

/// The key a run authenticates with: the caller's, where one is given, else
/// the configured identity file.
pub open spec fn effective_key(config: ConfigView, chosen: Option<Seq<char>>) -> Seq<char> {
    match chosen {
        Some(k) => k,
        None => config.ssh.identity_file,
    }
}

/// The view of an optional string slice.
pub open spec fn opt_str(s: Option<&str>) -> Option<Seq<char>> {
    match s {
        Some(t) => Some(t@),
        None => None,
    }
}

impl Config {
    /// Starts a run over all repositories, with the private key at
    /// `key_path`. A description that is not well formed is refused with its
    /// first defect, before anything is asked of the caller.
    pub fn clone_repos(&self, key_path: &str) -> (r: Result<SyncRun, ConfigError>)
        ensures
            r.is_ok() <==> self@.wf(),
            match r {
                Ok(run) => run@ == SyncRunView::initial(self@, key_path@) && run@.wf(),
                Err(e) => self@.defect() == Some(e),
            },
    {
        match self.validate() {
            Err(e) => {
                return Err(e);
            },
            Ok(_) => {},
        }
        let repositories = self.get_repos();
        let run = SyncRun {
            host_name: self.ssh.host_name.clone(),
            store: self.get_path_as_string(&PathType::Repositories),
            key_path: String::from_str(key_path),
            repositories,
            cursor: 0,
            phase: Phase::Probing,
            outcomes: Vec::new(),
        };
        assert(run@.repositories =~= self@.repositories);
        assert(run@.outcomes =~= Seq::empty());
        Ok(run)
    }

    /// Starts a run with the caller's key, or with the configured identity
    /// file where the caller names none.
    pub fn sync(&self, credential_override: Option<&str>) -> (r: Result<SyncRun, ConfigError>)
        ensures
            r.is_ok() <==> self@.wf(),
            match r {
                Ok(run) => run@ == SyncRunView::initial(
                    self@,
                    effective_key(self@, opt_str(credential_override)),
                ) && run@.wf(),
                Err(e) => self@.defect() == Some(e),
            },
    {
        match credential_override {
            Some(key_path) => self.clone_repos(key_path),
            None => self.clone_repos(self.ssh.identity_file.as_str()),
        }
    }
}


/// What the caller saw while one repository was fetched. The report counts
/// only where a clone was attempted.
pub struct FetchTrace {
    pub store_exists: bool,
    pub destination: DirState,
    pub report: CloneReport,
}

/// The event by which a caller who saw `trace` answers the request of a run
/// in phase `phase`.
pub open spec fn answer(phase: Phase, trace: FetchTrace) -> SyncEvent {
    match phase {
        Phase::Probing => SyncEvent::Probed {
            store_exists: trace.store_exists,
            destination: trace.destination,
        },
        Phase::Cloning => SyncEvent::CloneEnded(trace.report),
        Phase::Discarding => SyncEvent::Discarded,
    }
}

/// How many more requests a phase can be followed by for the same
/// repository.
pub open spec fn phase_rank(phase: Phase) -> nat {
    match phase {
        Phase::Probing => 2,
        Phase::Cloning => 1,
        Phase::Discarding => 0,
    }
}

/// The run driven to its end by a caller who sees `traces[i]` while the
/// `i`-th repository is fetched.
pub open spec fn driven(state: SyncRunView, traces: Seq<FetchTrace>) -> SyncRunView
    decreases state.repositories.len() - state.cursor, phase_rank(state.phase),
{
    if state.finished() || state.cursor >= traces.len() {
        state
    } else {
        driven(state.after(answer(state.phase, traces[state.cursor as int])), traces)
    }
}

/// The outcomes that `traces` lead to, one for each repository, in order.
pub open spec fn expected_outcomes(state: SyncRunView, traces: Seq<FetchTrace>) -> Seq<
    CloneOutcomeView,
> {
    Seq::new(
        state.repositories.len(),
        |i: int|
            crate::fetch::fetch_outcome(
                state.repositories[i].destination(state.store),
                traces[i].store_exists,
                traces[i].destination,
                traces[i].report,
            ),
    )
}

/// A run that is about to probe a repository, and whose outcomes so far are
/// the expected ones, ends with exactly the expected outcomes.
proof fn lemma_driven_from(state: SyncRunView, traces: Seq<FetchTrace>)
    requires
        state.wf(),
        state.phase == Phase::Probing,
        traces.len() == state.repositories.len(),
        state.outcomes == expected_outcomes(state, traces).take(state.cursor as int),
    ensures
        driven(state, traces).finished(),
        driven(state, traces).wf(),
        driven(state, traces).outcomes == expected_outcomes(state, traces),
    decreases state.repositories.len() - state.cursor,
{
    let all = expected_outcomes(state, traces);
    if state.finished() {
        assert(all.take(state.cursor as int) =~= all);
    } else {
        let i = state.cursor as int;
        let t = traces[i];
        let s1 = state.after(answer(Phase::Probing, t));
        assert(driven(state, traces) == driven(s1, traces));
        let next = if s1.phase == Phase::Probing {
            s1
        } else {
            let s2 = s1.after(answer(Phase::Cloning, t));
            assert(driven(s1, traces) == driven(s2, traces));
            if s2.phase == Phase::Probing {
                s2
            } else {
                let s3 = s2.after(answer(Phase::Discarding, t));
                assert(driven(s2, traces) == driven(s3, traces));
                s3
            }
        };
        assert(next.outcomes == state.outcomes.push(all[i]));
        assert(expected_outcomes(next, traces) == all);
        assert(all.take(i + 1) =~= all.take(i).push(all[i]));
        lemma_driven_from(next, traces);
    }
}

/// One run yields exactly one outcome for each repository, in the order of
/// the list, whatever the caller sees on the way: a failure for one
/// repository never ends the run nor touches the outcome of another.
pub proof fn lemma_one_outcome_per_repository(
    config: ConfigView,
    key_path: Seq<char>,
    traces: Seq<FetchTrace>,
)
    requires
        traces.len() == config.repositories.len(),
    ensures
        driven(SyncRunView::initial(config, key_path), traces).finished(),
        driven(SyncRunView::initial(config, key_path), traces).outcomes.len()
            == config.repositories.len(),
        driven(SyncRunView::initial(config, key_path), traces).outcomes == expected_outcomes(
            SyncRunView::initial(config, key_path),
            traces,
        ),
{
    let start = SyncRunView::initial(config, key_path);
    assert(expected_outcomes(start, traces).take(0) =~= start.outcomes);
    lemma_driven_from(start, traces);
}

/// A destination that exists and holds something is skipped: the outcome is
/// recorded at once and the run moves on, so that no clone is ever asked for.
pub proof fn lemma_populated_is_skipped(state: SyncRunView)
    requires
        state.wf(),
        !state.finished(),
        state.phase == Phase::Probing,
    ensures
        ({
            let next = state.after(
                SyncEvent::Probed { store_exists: true, destination: DirState::Populated },
            );
            &&& next.outcomes == state.outcomes.push(CloneOutcomeView::Skipped(skip_reason()))
            &&& next.cursor == state.cursor + 1
            &&& next.phase == Phase::Probing
            &&& !(next.pending() is Clone)
        }),
{
}

/// A destination that does not exist is cloned into: the next request is the
/// clone of this repository into its destination, and once that has
/// succeeded the outcome says so and names the destination.
pub proof fn lemma_missing_is_cloned(state: SyncRunView)
    requires
        state.wf(),
        !state.finished(),
        state.phase == Phase::Probing,
    ensures
        ({
            let asked = state.after(
                SyncEvent::Probed { store_exists: true, destination: DirState::Missing },
            );
            let done = asked.after(SyncEvent::CloneEnded(CloneReport::Cloned));
            &&& asked.pending() == (SyncRequestView::Clone {
                uri: state.repositories[state.cursor as int].remote_uri(state.host_name),
                destination: state.destination(),
                key_path: state.key_path,
            })
            &&& done.outcomes == state.outcomes.push(CloneOutcomeView::Cloned(state.destination()))
            &&& done.cursor == state.cursor + 1
        }),
{
}

/// Every step keeps a run well formed, and never loses an outcome.
pub proof fn lemma_after_preserves(state: SyncRunView, event: SyncEvent)
    requires
        state.wf(),
        state.accepts(event),
    ensures
        state.after(event).wf(),
        state.outcomes.is_prefix_of(state.after(event).outcomes),
        state.after(event).repositories == state.repositories,
{
    let next = state.after(event);
    if next.outcomes.len() > state.outcomes.len() {
        assert(next.outcomes.subrange(0, state.outcomes.len() as int) =~= state.outcomes);
    }
}

} // verus!

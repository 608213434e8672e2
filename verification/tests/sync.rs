use gitspace::fetch::{conclude_clone, decide_fetch, skipped};
use gitspace::{
    CloneOutcome, CloneReport, Config, ConfigError, DirState, FetchDecision, FetchError, Paths,
    Repo, Ssh, Sync, SyncEvent, SyncRequest,
};

fn workspace(repos: Vec<Repo>) -> Config {
    Config {
        paths: Paths {
            space: ".space".to_string(),
            config: "config.json".to_string(),
            repositories: "repositories".to_string(),
        },
        ssh: Ssh {
            host: "github".to_string(),
            host_name: "github.com".to_string(),
            user: "git".to_string(),
            identity_file: "/home/ada/.ssh/id_rsa".to_string(),
        },
        repositories: repos,
        sync: Sync { enabled: true, cron: "30 0 * * *".to_string() },
    }
}

fn probed(store_exists: bool, destination: DirState) -> SyncEvent {
    SyncEvent::Probed { store_exists, destination }
}

fn probe(project: &str) -> SyncRequest {
    SyncRequest::Probe {
        store: ".space/repositories".to_string(),
        destination: format!(".space/repositories/{}", project),
    }
}

#[test]
fn directory_states() {
    assert_eq!(DirState::observe(false, None), DirState::Missing);
    assert_eq!(DirState::observe(false, Some(true)), DirState::Missing);
    assert_eq!(DirState::observe(true, None), DirState::Unreadable);
    assert_eq!(DirState::observe(true, Some(false)), DirState::Empty);
    assert_eq!(DirState::observe(true, Some(true)), DirState::Populated);
    assert!(DirState::Empty.dir_is_empty());
    assert!(!DirState::Missing.dir_is_empty());
    assert!(!DirState::Unreadable.dir_is_empty());
    assert!(!DirState::Populated.dir_is_empty());
}

#[test]
fn fetch_decisions() {
    for state in [DirState::Missing, DirState::Unreadable, DirState::Empty, DirState::Populated] {
        assert_eq!(decide_fetch(false, state), FetchDecision::Fail(FetchError::Path));
    }
    assert_eq!(decide_fetch(true, DirState::Populated), FetchDecision::Skip);
    assert_eq!(decide_fetch(true, DirState::Missing), FetchDecision::Clone);
    assert_eq!(decide_fetch(true, DirState::Empty), FetchDecision::Clone);
    assert_eq!(
        decide_fetch(true, DirState::Unreadable),
        FetchDecision::Fail(FetchError::Filesystem)
    );
}

#[test]
fn clone_reports_become_outcomes() {
    let dest = || "store/widgets".to_string();
    assert_eq!(conclude_clone(dest(), CloneReport::Cloned), CloneOutcome::Cloned(dest()));
    assert_eq!(
        conclude_clone(dest(), CloneReport::DirectoryRefused),
        CloneOutcome::Failed(FetchError::Filesystem)
    );
    assert_eq!(
        conclude_clone(dest(), CloneReport::CredentialRejected),
        CloneOutcome::Failed(FetchError::Auth)
    );
    assert_eq!(
        conclude_clone(dest(), CloneReport::TransportFailed),
        CloneOutcome::Failed(FetchError::Network)
    );
    assert_eq!(skipped(), CloneOutcome::Skipped("already present".to_string()));
}

#[test]
fn widgets_scenario() {
    let config = workspace(vec![Repo::new("acme", "widgets")]);
    let plan = config.init_plan(false);
    assert_eq!(plan.create_store, ".space/repositories");
    assert_eq!(plan.write_config, Some(".space/config.json".to_string()));

    let mut run = config.sync(None).unwrap();
    assert!(!run.is_finished());
    assert_eq!(run.pending(), probe("widgets"));
    assert!(run.advance(probed(true, DirState::Missing)));
    assert_eq!(
        run.pending(),
        SyncRequest::Clone {
            uri: "git@github.com:acme/widgets".to_string(),
            destination: ".space/repositories/widgets".to_string(),
            key_path: "/home/ada/.ssh/id_rsa".to_string(),
        }
    );
    assert!(run.advance(SyncEvent::CloneEnded(CloneReport::Cloned)));
    assert!(run.is_finished());
    assert_eq!(run.pending(), SyncRequest::Finished);
    assert_eq!(
        run.into_outcomes(),
        vec![CloneOutcome::Cloned(".space/repositories/widgets".to_string())]
    );

    let mut again = config.sync(None).unwrap();
    assert!(again.advance(probed(true, DirState::Populated)));
    assert!(again.is_finished());
    assert_eq!(again.outcomes(), &vec![CloneOutcome::Skipped("already present".to_string())]);
}

#[test]
fn one_outcome_per_repository_in_order() {
    let config = workspace(vec![
        Repo::new("acme", "one"),
        Repo::new("acme", "two"),
        Repo::new("acme", "three"),
        Repo::new("acme", "four"),
        Repo::new("acme", "five"),
    ]);
    let mut run = config.clone_repos("/keys/k").unwrap();
    // one: already there
    assert_eq!(run.pending(), probe("one"));
    assert!(run.advance(probed(true, DirState::Populated)));
    // two: the remote cannot be reached; what the attempt left is discarded
    assert_eq!(run.pending(), probe("two"));
    assert!(run.advance(probed(true, DirState::Empty)));
    assert!(run.advance(SyncEvent::CloneEnded(CloneReport::TransportFailed)));
    assert_eq!(
        run.pending(),
        SyncRequest::Discard { destination: ".space/repositories/two".to_string() }
    );
    assert_eq!(run.outcomes().len(), 2);
    assert!(run.advance(SyncEvent::Discarded));
    // three: the key is refused
    assert_eq!(run.pending(), probe("three"));
    assert!(run.advance(probed(true, DirState::Missing)));
    assert!(run.advance(SyncEvent::CloneEnded(CloneReport::CredentialRejected)));
    assert!(run.advance(SyncEvent::Discarded));
    // four: the destination cannot be listed
    assert_eq!(run.pending(), probe("four"));
    assert!(run.advance(probed(true, DirState::Unreadable)));
    // five: cloned, with the caller's key
    assert_eq!(run.pending(), probe("five"));
    assert!(run.advance(probed(true, DirState::Missing)));
    assert_eq!(
        run.pending(),
        SyncRequest::Clone {
            uri: "git@github.com:acme/five".to_string(),
            destination: ".space/repositories/five".to_string(),
            key_path: "/keys/k".to_string(),
        }
    );
    assert!(run.advance(SyncEvent::CloneEnded(CloneReport::Cloned)));
    assert!(run.is_finished());
    assert_eq!(
        run.into_outcomes(),
        vec![
            CloneOutcome::Skipped("already present".to_string()),
            CloneOutcome::Failed(FetchError::Network),
            CloneOutcome::Failed(FetchError::Auth),
            CloneOutcome::Failed(FetchError::Filesystem),
            CloneOutcome::Cloned(".space/repositories/five".to_string()),
        ]
    );
}

#[test]
fn missing_store_fails_every_repository() {
    let config = workspace(vec![Repo::new("acme", "one"), Repo::new("acme", "two")]);
    let mut run = config.sync(Some("/keys/k")).unwrap();
    assert!(run.advance(probed(false, DirState::Missing)));
    assert!(run.advance(probed(false, DirState::Missing)));
    assert!(run.is_finished());
    assert_eq!(
        run.into_outcomes(),
        vec![CloneOutcome::Failed(FetchError::Path), CloneOutcome::Failed(FetchError::Path)]
    );
}

#[test]
fn a_directory_that_cannot_be_created_is_a_filesystem_failure() {
    let config = workspace(vec![Repo::new("acme", "one"), Repo::new("acme", "two")]);
    let mut run = config.sync(None).unwrap();
    assert!(run.advance(probed(true, DirState::Missing)));
    assert!(run.advance(SyncEvent::CloneEnded(CloneReport::DirectoryRefused)));
    assert_eq!(run.pending(), probe("two"));
    assert_eq!(run.outcomes(), &vec![CloneOutcome::Failed(FetchError::Filesystem)]);
}

#[test]
fn events_that_answer_nothing_are_refused() {
    let config = workspace(vec![Repo::new("acme", "one")]);
    let mut run = config.sync(None).unwrap();
    assert!(!run.advance(SyncEvent::CloneEnded(CloneReport::Cloned)));
    assert!(!run.advance(SyncEvent::Discarded));
    assert_eq!(run.pending(), probe("one"));
    assert!(run.outcomes().is_empty());
    assert!(run.advance(probed(true, DirState::Empty)));
    assert!(!run.advance(probed(true, DirState::Populated)));
    assert!(!run.advance(SyncEvent::Discarded));
    assert!(run.advance(SyncEvent::CloneEnded(CloneReport::TransportFailed)));
    assert!(!run.advance(SyncEvent::CloneEnded(CloneReport::Cloned)));
    assert!(run.advance(SyncEvent::Discarded));
    assert!(run.is_finished());
    assert!(!run.advance(probed(true, DirState::Missing)));
    assert!(!run.advance(SyncEvent::Discarded));
    assert_eq!(run.into_outcomes(), vec![CloneOutcome::Failed(FetchError::Network)]);
}

#[test]
fn no_repositories_no_requests() {
    let config = workspace(vec![]);
    let run = config.sync(None).unwrap();
    assert!(run.is_finished());
    assert_eq!(run.pending(), SyncRequest::Finished);
    assert!(run.into_outcomes().is_empty());
}

#[test]
fn the_override_wins_over_the_identity_file() {
    let config = workspace(vec![Repo::new("acme", "one")]);
    let mut configured = config.sync(None).unwrap();
    let mut chosen = config.sync(Some("/tmp/other_key")).unwrap();
    assert!(configured.advance(probed(true, DirState::Missing)));
    assert!(chosen.advance(probed(true, DirState::Missing)));
    match configured.pending() {
        SyncRequest::Clone { key_path, .. } => assert_eq!(key_path, "/home/ada/.ssh/id_rsa"),
        other => panic!("unexpected request {:?}", other),
    }
    match chosen.pending() {
        SyncRequest::Clone { key_path, .. } => assert_eq!(key_path, "/tmp/other_key"),
        other => panic!("unexpected request {:?}", other),
    }
}

#[test]
fn a_defective_workspace_is_refused_before_any_request() {
    let escaping = workspace(vec![Repo::new("acme", "one"), Repo::new("acme", "../../etc")]);
    assert_eq!(escaping.sync(None).err(), Some(ConfigError::Repository(1)));
    assert_eq!(escaping.clone_repos("/keys/k").err(), Some(ConfigError::Repository(1)));
    let mut rootless = workspace(vec![]);
    rootless.paths.space = String::new();
    assert_eq!(rootless.sync(None).err(), Some(ConfigError::EmptySpace));
}

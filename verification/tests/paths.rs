use gitspace::{Config, ConfigError, ConfigParser, PathType, Paths, Repo, Ssh, Sync};
use serde_json::Value;

const GITSPACE: &str = ".space";
const CONFIG: &str = "config.json";
const REPOS: &str = "repositories";

fn text(s: &str) -> Value {
    Value::String(s.to_string())
}

fn to_json(config: &Config) -> Value {
    let mut paths = serde_json::Map::new();
    paths.insert("space".to_string(), text(&config.paths.space));
    paths.insert("config".to_string(), text(&config.paths.config));
    paths.insert("repositories".to_string(), text(&config.paths.repositories));
    let mut ssh = serde_json::Map::new();
    ssh.insert("host".to_string(), text(&config.ssh.host));
    ssh.insert("hostName".to_string(), text(&config.ssh.host_name));
    ssh.insert("user".to_string(), text(&config.ssh.user));
    ssh.insert("identityFile".to_string(), text(&config.ssh.identity_file));
    let mut repositories = Vec::new();
    for repo in &config.repositories {
        let mut entry = serde_json::Map::new();
        entry.insert("namespace".to_string(), text(&repo.namespace));
        entry.insert("project".to_string(), text(&repo.project));
        repositories.push(Value::Object(entry));
    }
    let mut sync = serde_json::Map::new();
    sync.insert("enabled".to_string(), Value::Bool(config.sync.enabled));
    sync.insert("cron".to_string(), text(&config.sync.cron));
    let mut document = serde_json::Map::new();
    document.insert("paths".to_string(), Value::Object(paths));
    document.insert("ssh".to_string(), Value::Object(ssh));
    document.insert("repositories".to_string(), Value::Array(repositories));
    document.insert("sync".to_string(), Value::Object(sync));
    Value::Object(document)
}

fn sample(space: &str, config: &str, repositories: &str, repos: Vec<Repo>) -> Config {
    Config {
        paths: Paths {
            space: space.to_string(),
            config: config.to_string(),
            repositories: repositories.to_string(),
        },
        ssh: Ssh {
            host: "github".to_string(),
            host_name: "github.com".to_string(),
            user: "git".to_string(),
            identity_file: "/keys/id_ed25519".to_string(),
        },
        repositories: repos,
        sync: Sync { enabled: false, cron: "0 * * * *".to_string() },
    }
}

#[test]
fn config_to_json() {
    let config_default = Config::default();

    let key_path = &config_default.get_path_as_string(&PathType::Key);
    let config_raw = Config {
        paths: Paths {
            space: String::from(GITSPACE),
            config: String::from(CONFIG),
            repositories: String::from(REPOS),
        },
        ssh: Ssh {
            host: "github".to_string(),
            host_name: "github.com".to_string(),
            user: "git".to_string(),
            identity_file: String::from(key_path),
        },
        repositories: vec![
            Repo { namespace: "capswan".to_string(), project: "cli-gitspace".to_string() },
            Repo { namespace: "capswan".to_string(), project: "cli-ftr".to_string() },
        ],
        sync: Sync { enabled: true, cron: "30 0 * * *".to_string() },
    };

    let config_default_json = to_json(&config_default);
    assert_eq!(config_default_json, to_json(&config_raw));
    assert_eq!(config_default, config_raw);
}

#[test]
fn get_space_path() {
    let config = Config::default();
    let space_path = &config.get_path_as_string(&PathType::Space);
    assert_eq!(space_path.as_str(), GITSPACE);
}

#[test]
fn get_config_path() {
    let config = Config::default();
    let config_path = &config.get_path_as_string(&PathType::Config);
    assert_eq!(config_path.as_str(), format!("{}/{}", GITSPACE, CONFIG));
}

#[test]
fn get_repositories_path() {
    let config = Config::default();
    let repositories_path = &config.get_path_as_string(&PathType::Repositories);
    assert_eq!(repositories_path.as_str(), format!("{}/{}", GITSPACE, REPOS));
}

#[test]
fn get_repos() {
    let config = Config::default();
    let repos = config.get_repos();
    println!("{:?}", repos);
    assert_eq!(repos, config.repositories);
}

#[test]
fn default_paths_are_the_standard_layout() {
    let paths = Paths::default();
    assert_eq!(paths.space, ".space");
    assert_eq!(paths.config, "config.json");
    assert_eq!(paths.repositories, "repositories");
}

#[test]
fn default_identity_file_follows_the_home_directory() {
    let config = Config::default();
    match dirs::home_dir() {
        Some(home) => {
            let expected = home.join(".ssh/id_rsa");
            assert_eq!(config.ssh.identity_file, expected.to_str().unwrap());
        }
        None => assert_eq!(config.ssh.identity_file, "~/.ssh/id_rsa"),
    }
    assert!(config.ssh.identity_file.ends_with(".ssh/id_rsa"));
}

#[test]
fn for_home_builds_the_key_path() {
    let with_home = Config::for_home(Some("/home/ada".to_string()));
    assert_eq!(with_home.ssh.identity_file, "/home/ada/.ssh/id_rsa");
    let trailing = Config::for_home(Some("/".to_string()));
    assert_eq!(trailing.ssh.identity_file, "/.ssh/id_rsa");
    let empty = Config::for_home(Some(String::new()));
    assert_eq!(empty.ssh.identity_file, ".ssh/id_rsa");
    let unknown = Config::for_home(None);
    assert_eq!(unknown.ssh.identity_file, "~/.ssh/id_rsa");
    assert_eq!(with_home.ssh.host, "github");
    assert_eq!(with_home.ssh.host_name, "github.com");
    assert_eq!(with_home.ssh.user, "git");
    assert!(with_home.sync.enabled);
    assert_eq!(with_home.sync.cron, "30 0 * * *");
    assert_eq!(with_home.repositories.len(), 2);
    assert_eq!(with_home.repositories[0], Repo::new("capswan", "cli-gitspace"));
    assert_eq!(with_home.repositories[1], Repo::new("capswan", "cli-ftr"));
}

#[test]
fn key_path_is_verbatim_and_may_leave_the_space() {
    let config = sample("work/space", "cfg.json", "store", vec![]);
    assert_eq!(config.get_path_as_string(&PathType::Key), "/keys/id_ed25519");
}

#[test]
fn all_paths_at_once() {
    let config = sample("work/space", "cfg.json", "store", vec![]);
    let (space, file, store, key) = config.get_paths_as_strings();
    assert_eq!(space, "work/space");
    assert_eq!(file, "work/space/cfg.json");
    assert_eq!(store, "work/space/store");
    assert_eq!(key, "/keys/id_ed25519");
    assert!(file.starts_with(&space));
    assert!(store.starts_with(&space));
}

#[test]
fn remote_uri_and_destination() {
    let repo = Repo::new("acme", "widgets");
    assert_eq!(repo.remote_uri("github.com"), "git@github.com:acme/widgets");
    assert_eq!(repo.destination(".space/repositories"), ".space/repositories/widgets");
}

#[test]
fn well_formed_repositories() {
    assert!(Repo::new("acme", "widgets").is_well_formed());
    assert!(Repo::new("acme/tools", "widgets.rs").is_well_formed());
    assert!(!Repo::new("", "widgets").is_well_formed());
    assert!(!Repo::new("acme", "").is_well_formed());
    assert!(!Repo::new("acme", "../widgets").is_well_formed());
    assert!(!Repo::new("acme", "a/../b").is_well_formed());
    assert!(!Repo::new("/acme", "widgets").is_well_formed());
    assert!(!Repo::new("acme", "/etc").is_well_formed());
    assert!(!Repo::new("acme", "..").is_well_formed());
}

#[test]
fn validate_names_the_first_defect() {
    let good = sample(".space", "config.json", "repositories", vec![Repo::new("a", "b")]);
    assert_eq!(good.validate(), Ok(()));
    let empty_space = sample("", "../x", "/y", vec![Repo::new("", "")]);
    assert_eq!(empty_space.validate(), Err(ConfigError::EmptySpace));
    let bad_file = sample(".space", "../x", "/y", vec![Repo::new("", "")]);
    assert_eq!(bad_file.validate(), Err(ConfigError::ConfigName));
    let bad_store = sample(".space", "config.json", "/y", vec![Repo::new("", "")]);
    assert_eq!(bad_store.validate(), Err(ConfigError::StoreName));
    let bad_repo = sample(
        ".space",
        "config.json",
        "repositories",
        vec![Repo::new("a", "b"), Repo::new("a", "../b"), Repo::new("", "c")],
    );
    assert_eq!(bad_repo.validate(), Err(ConfigError::Repository(1)));
    assert_eq!(Config::default().validate(), Ok(()));
}

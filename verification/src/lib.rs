//! A workspace manager's decision core: where things live on disk, which
//! repositories to fetch or skip, which links to create or remove, and what a
//! cleanup touches. All filesystem and network work is left to the caller.
pub mod cleanup;
pub mod config;
pub mod error;
pub mod fetch;
pub mod init;
pub mod links;
pub mod paths;
pub mod sync;
pub mod text;

pub use cleanup::{CleanOutcome, CleanTarget, CleanupRequest, RemovalReport};
pub use config::{Config, ConfigError, PathType, Paths, Repo, Ssh, Sync};
pub use error::{FetchError, FilesystemError};
pub use fetch::{CloneOutcome, CloneReport, DirState, FetchDecision};
pub use init::InitPlan;
pub use links::{cwd, DirEntry, LinkDecision, Occupant, SymlinkEntry};
pub use sync::{ConfigParser, Phase, SyncEvent, SyncRequest, SyncRun};

//! Initializing a space: what has to be created, and what is left alone.
use vstd::prelude::*;
use crate::config::{Config, ConfigView, PathType};

verus! {

/// What initializing a space has to do on disk.
#[derive(Debug, PartialEq, Eq, Clone)]
pub struct InitPlan {
    /// The directory to create, with its parents, unless it is there.
    pub create_store: String,
    /// Where to write the configuration document, if it is to be written.
    pub write_config: Option<String>,
}

pub struct InitPlanView {
    pub create_store: Seq<char>,
    pub write_config: Option<Seq<char>>,
}

impl View for InitPlan {
    type V = InitPlanView;

    open spec fn view(&self) -> InitPlanView {
        InitPlanView {
            create_store: self.create_store@,
            write_config: match self.write_config {
                Some(path) => Some(path@),
                None => None,
            },
        }
    }
}

/// The repository store is always asked for; the configuration document is
/// written only where none exists, so that an existing one is never altered.
pub open spec fn init_plan_for(config: ConfigView, config_exists: bool) -> InitPlanView {
    InitPlanView {
        create_store: config.path(PathType::Repositories),
        write_config: if config_exists {
            None
        } else {
            Some(config.path(PathType::Config))
        },
    }
}

impl Config {
    /// Plans the initialization of the space, given whether its configuration
    /// document already exists.
    pub fn init_plan(&self, config_exists: bool) -> (r: InitPlan)
        ensures
            r@ == init_plan_for(self@, config_exists),
            config_exists ==> r.write_config is None,
    {
        InitPlan {
            create_store: self.get_path_as_string(&PathType::Repositories),
            write_config: if config_exists {
                None
            } else {
                Some(self.get_path_as_string(&PathType::Config))
            },
        }
    }
}

/// Initializing a space twice is the same as initializing it once: once the
/// first run has written the document, the second writes nothing, and both
/// ask for the same repository store.
pub proof fn lemma_init_idempotent(config: ConfigView, existed: bool)
    ensures
        init_plan_for(config, true).write_config is None,
        init_plan_for(config, true).create_store == init_plan_for(config, existed).create_store,
{
}

} // verus!

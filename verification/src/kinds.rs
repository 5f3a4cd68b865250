//! Run mode and the two kinds of supervised process.

use vstd::prelude::*;
use vstd::string::StringExecFns;
use crate::process::ProcessManager;

verus! {

/// Whether the application runs from a source checkout or from an install.
#[derive(Clone, Copy, Debug, PartialEq, Eq, Structural)]
pub enum RunMode {
    Development,
    Production,
}

/// Which of the two supervised processes is meant.
#[derive(Clone, Copy, Debug, PartialEq, Eq, Structural)]
pub enum ProcessKind {
    Server,
    Worker,
}

/// The run mode that an environment flag and the build's debug flag select:
/// development when the flag reads `development` or the build is a debug build.
pub open spec fn spec_run_mode(rust_env: Seq<char>, debug_build: bool) -> RunMode {
    if rust_env == "development"@ || debug_build {
        RunMode::Development
    } else {
        RunMode::Production
    }
}

impl RunMode {
    /// Derives the mode from the value of the environment flag (empty when it
    /// is unset) and the debug flag of the build.
    pub fn from_flags(rust_env: &str, debug_build: bool) -> (mode: RunMode)
        ensures
            mode == spec_run_mode(rust_env@, debug_build),
    {
        let flag = String::from_str(rust_env);
        let wanted = String::from_str("development");
        if flag == wanted || debug_build {
            RunMode::Development
        } else {
            RunMode::Production
        }
    }

    pub open spec fn is_development(self) -> bool {
        self == RunMode::Development
    }

    /// True in development mode.
    #[verifier::when_used_as_spec(is_development)]
    pub fn is_dev(self) -> (dev: bool)
        ensures
            dev == self.is_development(),
    {
        match self {
            RunMode::Development => true,
            RunMode::Production => false,
        }
    }

    /// The word handed to child processes in their `NODE_ENV` variable.
    pub open spec fn spec_node_env(self) -> Seq<char> {
        match self {
            RunMode::Development => "development"@,
            RunMode::Production => "production"@,
        }
    }

    pub fn node_env(self) -> (word: String)
        ensures
            word@ == self.spec_node_env(),
    {
        match self {
            RunMode::Development => String::from_str("development"),
            RunMode::Production => String::from_str("production"),
        }
    }
}

impl ProcessManager {
    /// Whether the application runs in development mode, from the value of
    /// the environment flag (empty when it is unset) and the debug flag of
    /// the build.
    pub fn is_dev(rust_env: &str, debug_build: bool) -> (dev: bool)
        ensures
            dev == (rust_env@ == "development"@ || debug_build),
    {
        RunMode::from_flags(rust_env, debug_build).is_dev()
    }
}

} // verus!

use vstd::prelude::*;
use vstd::string::*;

verus! {

/// Name of the environment variable whose presence turns recording on.
pub const ENABLE_VAR: &'static str = "EXPORT_CALLS";

/// Where the call graph is written.
pub const LOG_PATH: &'static str = "/tmp/callgraph.log";

/// Process-wide configuration, computed once from the environment.
pub struct Config {
    pub enabled: bool,
    pub log_path: String,
}

impl Config {
    /// The configuration for an environment in which the enabling variable is
    /// present (with any value) or absent.
    pub fn from_env(enable_var_present: bool) -> (r: Config)
        ensures
            r.enabled == enable_var_present,
            r.log_path@ == LOG_PATH@,
    {
        Config { enabled: enable_var_present, log_path: String::from_str(LOG_PATH) }
    }
}

} // verus!

//! Which configuration files are read: `config/config.json`, then the file of
//! the run mode.

use vstd::prelude::*;

verus! {

/// The run mode when none is set.
pub open spec fn default_run_mode() -> Seq<char> {
    "development"@
}

/// The name of the configuration file of a run mode (`development` when no
/// run mode is set), before the format's extension.
pub fn run_mode_config_file(run_mode: Option<String>) -> (r: String)
    ensures
        r@ == "config/config-"@ + match run_mode {
            Some(m) => m@,
            None => default_run_mode(),
        },
{
    let mut name = String::from_str("config/config-");
    match run_mode {
        Some(m) => name.append(m.as_str()),
        None => name.append("development"),
    }
    name
}

} // verus!

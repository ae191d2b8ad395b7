use vstd::prelude::*;
use vstd::string::StringExecFns;

verus! {

/// The settings of one run: where the test inputs live, and whether freshly
/// generated snapshots are promoted to become the expected ones.
#[derive(Clone, Debug)]
pub struct Args {
    /// The directory searched for test inputs.
    pub test_directory: String,
    /// Accept current output as expected (update the expected snapshots).
    pub accept: bool,
}

/// Accept mode is on when the flag is given, or else when the environment
/// override holds exactly `true`.
pub open spec fn accept_mode(flag: bool, env_value: Option<String>) -> bool {
    flag || (env_value is Some && env_value->Some_0@ == "true"@)
}

/// Merges the accept flag with the value of the environment override, if set.
pub fn resolve_accept(flag: bool, env_value: Option<String>) -> (r: bool)
    ensures
        r == accept_mode(flag, env_value),
{
    if flag {
        return true;
    }
    match env_value {
        Some(v) => {
            let t = String::from_str("true");
            v == t
        },
        None => false,
    }
}

/// What was found of the configuration file in a test's directory.
#[derive(Clone, Copy, Debug, PartialEq, Eq, Structural)]
pub enum ConfigFile {
    /// There is no readable configuration file.
    Missing,
    /// The file exists but does not parse as a configuration.
    Malformed,
    /// The file parsed; the option is `None` when its key is absent.
    Parsed { enable_native_parser: Option<bool> },
}

/// Whether the native parser runs on inputs of a directory with this
/// configuration: only an explicit `false` turns it off.
pub open spec fn native_parser_enabled(cfg: ConfigFile) -> bool {
    match cfg {
        ConfigFile::Parsed { enable_native_parser: Some(b) } => b,
        _ => true,
    }
}

/// Resolves the per-directory option, defaulting to enabled when the file is
/// missing, malformed, or silent on the option.
pub fn resolve_native_parser(cfg: ConfigFile) -> (r: bool)
    ensures
        r == native_parser_enabled(cfg),
{
    match cfg {
        ConfigFile::Missing => true,
        ConfigFile::Malformed => true,
        ConfigFile::Parsed { enable_native_parser } => match enable_native_parser {
            Some(b) => b,
            None => true,
        },
    }
}

} // verus!

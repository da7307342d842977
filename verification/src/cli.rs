//! The commands of the tool, and the defaults its command line falls back on.

use vstd::prelude::*;
use vstd::string::*;

verus! {

/// The command line: a command and whether output is verbose.
#[derive(Debug)]
pub struct Cli {
    pub command: Commands,
    pub verbose: bool,
}

/// The commands of the tool.
#[derive(Debug)]
pub enum Commands {
    /// Start all services (or one of them).
    Up { service: Option<String>, detach: bool },
    /// Stop all running services (or one of them).
    Down { service: Option<String> },
    /// Remove all containers, networks, and volumes.
    Clean { volumes: bool },
    /// Run tests in an isolated environment.
    Test { args: Vec<String> },
    /// Execute a command inside a running service.
    Exec { service: String, command: Vec<String> },
    /// Show status of all services.
    Status,
    /// Show logs from services.
    Logs { service: Option<String>, follow: bool, tail: u32 },
    /// Initialize a new project file.
    Init { name: Option<String> },
}

/// The name `init` gives a project: the one given, else the name of the
/// current directory, else `my-project`.
pub fn init_project_name(name: Option<String>, dir_name: Option<String>) -> (n: String)
    ensures
        n@ == match name {
            Some(given) => given@,
            None => match dir_name {
                Some(d) => d@,
                None => "my-project"@,
            },
        },
{
    match name {
        Some(given) => given,
        None => match dir_name {
            Some(d) => d,
            None => "my-project".to_owned(),
        },
    }
}

/// The services whose logs are shown: the one given, else `all`.
pub fn logs_target(service: Option<String>) -> (t: String)
    ensures
        t@ == match service {
            Some(s) => s@,
            None => "all"@,
        },
{
    match service {
        Some(s) => s,
        None => "all".to_owned(),
    }
}

} // verus!

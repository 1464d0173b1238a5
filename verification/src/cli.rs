//! The command line, once it is read.

use vstd::prelude::*;

verus! {

/// What the program is asked to do.
#[derive(Clone, Copy, Debug, PartialEq, Eq, Structural)]
pub enum Command {
    /// Serve the built site for a preview.
    Server,
    /// Build the site once.
    Build,
}

/// The arguments of the program.
#[derive(Debug)]
pub struct Args {
    pub command: Command,
    /// Where the configuration is, if the caller has said so.
    pub config_path: Option<String>,
}

/// Where the configuration is looked for when the caller has not said.
pub open spec fn default_config_path() -> Seq<char> {
    "puggle.yaml"@
}

impl Args {
    /// The path of the configuration file: the one given, or else the
    /// default.
    pub fn config_file(&self) -> (path: String)
        ensures
            path@ == match self.config_path {
                Some(given) => given@,
                None => default_config_path(),
            },
    {
        match &self.config_path {
            Some(given) => given.clone(),
            None => "puggle.yaml".to_owned(),
        }
    }
}

} // verus!

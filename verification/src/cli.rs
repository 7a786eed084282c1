//! The options of one invocation, as the command line hands them over.

use std::path::PathBuf;
use vstd::prelude::*;

use crate::argon2::Algorithm;
use crate::failure::Failure;

verus! {

/// `std::path::PathBuf`, carried through as an opaque value: a path is chosen
/// here, never looked into.
#[verifier::external_type_specification]
#[verifier::external_body]
pub struct ExPathBuf(PathBuf);

/// The file that holds the persisted parameters, inside the configuration
/// directory.
pub const CONFIG_FILE_NAME: &'static str = "config.toml";

/// The global options of an invocation. The cost parameters and the salt are
/// optional here; whether they make a usable set is decided by
/// [`Parameters::from_cli`](crate::argon2::Parameters::from_cli).
#[derive(Clone, Debug, PartialEq, Eq)]
pub struct Cli {
    /// The Argon2 variant; where none is asked for, it is the default one.
    pub algorithm: Algorithm,
    /// Memory cost, in units of [`MEMORY_UNIT`](crate::argon2::MEMORY_UNIT).
    pub memory: Option<u32>,
    /// Number of iterations.
    pub time: Option<u32>,
    /// Number of lanes.
    pub parallelism: Option<u32>,
    /// The base salt, to which the name of a secret is appended.
    pub salt: Option<String>,
    /// Where the persisted parameters are kept, if not at the default place.
    pub config: Option<PathBuf>,
    /// Whether the passphrase is shown while it is typed.
    pub expose_passphrase: bool,
}

/// The mathematical content of a [`Cli`].
pub struct CliView {
    pub algorithm: Algorithm,
    pub memory: Option<u32>,
    pub time: Option<u32>,
    pub parallelism: Option<u32>,
    pub salt: Option<Seq<char>>,
    pub config: Option<PathBuf>,
    pub expose_passphrase: bool,
}

impl View for Cli {
    type V = CliView;

    open spec fn view(&self) -> CliView {
        CliView {
            algorithm: self.algorithm,
            memory: self.memory,
            time: self.time,
            parallelism: self.parallelism,
            salt: match self.salt {
                Some(s) => Some(s@),
                None => None,
            },
            config: self.config,
            expose_passphrase: self.expose_passphrase,
        }
    }
}

impl CliView {
    /// The location of the persisted parameters: the explicit path if there
    /// is one, else the default location, else a failure.
    pub open spec fn config_path(self, default_path: Option<PathBuf>) -> Result<PathBuf, Failure> {
        match (self.config, default_path) {
            (Some(path), _) => Ok(path),
            (None, Some(path)) => Ok(path),
            (None, None) => Err(Failure::UnresolvedConfigPath),
        }
    }
}

impl Cli {
    /// Chooses where the persisted parameters live. `default_path` is the
    /// file [`CONFIG_FILE_NAME`] inside the platform's configuration
    /// directory, or `None` where the platform offers no such directory.
    pub fn config_path<'a>(&'a self, default_path: Option<&'a PathBuf>) -> (r: Result<
        &'a PathBuf,
        Failure,
    >)
        ensures
            match r {
                Ok(path) => Ok(*path),
                Err(e) => Err(e),
            } == self@.config_path(
                match default_path {
                    Some(path) => Some(*path),
                    None => None,
                },
            ),
    {
        match &self.config {
            Some(path) => Ok(path),
            None => match default_path {
                Some(path) => Ok(path),
                None => Err(Failure::UnresolvedConfigPath),
            },
        }
    }
}

} // verus!

//! The parameters of the memory-hard function and how they are resolved from
//! explicit options or from a persisted record.

use vstd::prelude::*;
use vstd::utf8::*;

use crate::cli::{Cli, CliView};
use crate::config::{File, FileView};
use crate::failure::Failure;

verus! {

/// The shortest salt, in bytes, that a derivation accepts.
pub const MIN_SALT_LEN: usize = 8;

/// The factor by which an explicitly given memory cost is scaled.
pub const MEMORY_UNIT: u32 = 1024 * 1024;

/// The variant of Argon2.
#[derive(Clone, Copy, Debug, PartialEq, Eq, Structural)]
pub enum Algorithm {
    /// Strongest against GPU and ASIC attacks, open to side channels.
    Argon2d,
    /// Resistant to side channels as well: the general-purpose variant.
    Argon2id,
}

impl Default for Algorithm {
    /// The variant used when none is asked for: the one that resists side
    /// channels.
    fn default() -> (r: Algorithm)
        ensures
            r == Algorithm::Argon2id,
    {
        Algorithm::Argon2id
    }
}

impl Algorithm {
    /// The tag under which a variant is written and read.
    pub open spec fn tag(self) -> Seq<char> {
        match self {
            Algorithm::Argon2d => "argon2d"@,
            Algorithm::Argon2id => "argon2id"@,
        }
    }

    /// The variant that a tag names, if any.
    pub open spec fn of_tag(tag: Seq<char>) -> Option<Algorithm> {
        if tag == "argon2d"@ {
            Some(Algorithm::Argon2d)
        } else if tag == "argon2id"@ {
            Some(Algorithm::Argon2id)
        } else {
            None
        }
    }

    /// Reads a tag. Exactly `argon2d` and `argon2id` are known.
    pub fn from_str(s: &str) -> (r: Result<Algorithm, Failure>)
        ensures
            r == match Algorithm::of_tag(s@) {
                Some(algorithm) => Ok::<Algorithm, Failure>(algorithm),
                None => Err(Failure::InvalidAlgorithm),
            },
    {
        let tag = s.to_owned();
        if tag == "argon2d".to_owned() {
            Ok(Algorithm::Argon2d)
        } else if tag == "argon2id".to_owned() {
            Ok(Algorithm::Argon2id)
        } else {
            Err(Failure::InvalidAlgorithm)
        }
    }

    /// The tag of this variant.
    pub fn as_str(&self) -> (r: &'static str)
        ensures
            r@ == self.tag(),
    {
        match self {
            Algorithm::Argon2d => "argon2d",
            Algorithm::Argon2id => "argon2id",
        }
    }

    /// A tag that was written for a variant reads back as that variant.
    pub proof fn lemma_tag_round_trip(algorithm: Algorithm)
        ensures
            Algorithm::of_tag(algorithm.tag()) == Some(algorithm),
    {
        reveal_strlit("argon2d");
        reveal_strlit("argon2id");
        assert("argon2id"@.len() == 8);
    }
}

/// What the memory-hard function is run with, apart from the passphrase and
/// the length of its output.
#[derive(Clone, Debug, PartialEq, Eq)]
pub struct Parameters {
    pub algorithm: Algorithm,
    /// Memory cost, already scaled.
    pub memory: u32,
    /// Number of iterations.
    pub time: u32,
    /// Number of lanes.
    pub parallelism: u32,
    /// The salt: the base salt at first, the base salt followed by the name
    /// of the secret once [`Parameters::with_name`] has run.
    pub salt: Vec<u8>,
}

/// The mathematical content of [`Parameters`].
pub struct ParametersView {
    pub algorithm: Algorithm,
    pub memory: u32,
    pub time: u32,
    pub parallelism: u32,
    pub salt: Seq<u8>,
}

impl View for Parameters {
    type V = ParametersView;

    open spec fn view(&self) -> ParametersView {
        ParametersView {
            algorithm: self.algorithm,
            memory: self.memory,
            time: self.time,
            parallelism: self.parallelism,
            salt: self.salt@,
        }
    }
}

/// The bytes of an optional salt text: its UTF-8 encoding, or nothing.
pub open spec fn salt_bytes(salt: Option<Seq<char>>) -> Seq<u8> {
    match salt {
        Some(text) => encode_utf8(text),
        None => Seq::<u8>::empty(),
    }
}

impl CliView {
    /// None of memory, time, parallelism and salt is given.
    pub open spec fn none_defined(self) -> bool {
        self.memory is None && self.time is None && self.parallelism is None && self.salt is None
    }

    /// The scaled memory cost can be held in 32 bits.
    pub open spec fn memory_fits(self) -> bool {
        self.memory matches Some(memory) ==> memory * MEMORY_UNIT <= u32::MAX
    }

    /// The parameters that the options spell out, where memory, time and
    /// parallelism are all given. An absent salt is the empty salt.
    pub open spec fn spelled_out(self) -> Option<ParametersView> {
        match (self.memory, self.time, self.parallelism) {
            (Some(memory), Some(time), Some(parallelism)) => Some(
                ParametersView {
                    algorithm: self.algorithm,
                    memory: (memory * MEMORY_UNIT) as u32,
                    time,
                    parallelism,
                    salt: salt_bytes(self.salt),
                },
            ),
            _ => None,
        }
    }

    /// The failure that names each of memory, time and parallelism that is
    /// not given.
    pub open spec fn missing(self) -> Failure {
        Failure::MissingRequiredParameters {
            memory: self.memory is None,
            time: self.time is None,
            parallelism: self.parallelism is None,
        }
    }

    /// All or nothing: with nothing given there are no explicit parameters,
    /// with memory, time and parallelism given there are, and anything in
    /// between is a failure. So is a memory cost that cannot be scaled.
    pub open spec fn explicit(self) -> Result<Option<ParametersView>, Failure> {
        if self.none_defined() {
            Ok(None)
        } else if !self.memory_fits() {
            Err(Failure::MemoryTooLarge)
        } else {
            match self.spelled_out() {
                Some(parameters) => Ok(Some(parameters)),
                None => Err(self.missing()),
            }
        }
    }

    /// The parameters of an invocation: the explicit ones, or else those of
    /// the persisted record.
    pub open spec fn resolve(self, persisted: Option<FileView>) -> Result<ParametersView, Failure> {
        match self.explicit() {
            Err(e) => Err(e),
            Ok(Some(parameters)) => Ok(parameters),
            Ok(None) => match persisted {
                Some(record) => record.parameters(),
                None => Err(Failure::MissingConfig),
            },
        }
    }
}

impl FileView {
    /// The parameters that a persisted record stands for. Its memory cost is
    /// taken as it is.
    pub open spec fn parameters(self) -> Result<ParametersView, Failure> {
        match Algorithm::of_tag(self.algorithm) {
            Some(algorithm) => Ok(
                ParametersView {
                    algorithm,
                    memory: self.memory,
                    time: self.time,
                    parallelism: self.parallelism,
                    salt: salt_bytes(self.salt),
                },
            ),
            None => Err(Failure::InvalidAlgorithm),
        }
    }
}

impl ParametersView {
    /// The salt that a derivation for `name` runs with: the base salt
    /// followed by the UTF-8 bytes of the name.
    pub open spec fn effective_salt(self, name: Seq<char>) -> Seq<u8> {
        self.salt + encode_utf8(name)
    }

    /// These parameters with the name appended to the salt, unless that salt
    /// is shorter than [`MIN_SALT_LEN`].
    pub open spec fn with_name(self, name: Seq<char>) -> Result<ParametersView, Failure> {
        if self.effective_salt(name).len() < MIN_SALT_LEN {
            Err(Failure::SaltTooShort)
        } else {
            Ok(ParametersView { salt: self.effective_salt(name), ..self })
        }
    }
}

impl Cli {
    /// Whether the scaled memory cost can be held in 32 bits.
    pub fn memory_fits(&self) -> (r: bool)
        ensures
            r == self@.memory_fits(),
    {
        match self.memory {
            Some(memory) => memory <= u32::MAX / MEMORY_UNIT,
            None => true,
        }
    }
}

impl Parameters {
    /// Whether none of memory, time, parallelism and salt is given.
    pub fn none_defined(cli: &Cli) -> (r: bool)
        ensures
            r == cli@.none_defined(),
    {
        cli.memory.is_none() && cli.time.is_none() && cli.parallelism.is_none()
            && cli.salt.is_none()
    }

    /// The explicit parameters, or `Ok(None)` where none is given at all.
    /// Fails where some are given but memory, time or parallelism is not,
    /// and where the memory cost is too large to be scaled.
    pub fn from_cli(cli: &Cli) -> (r: Result<Option<Parameters>, Failure>)
        ensures
            match r {
                Ok(Some(parameters)) => Ok(Some(parameters@)),
                Ok(None) => Ok(None),
                Err(e) => Err(e),
            } == cli@.explicit(),
    {
        if Self::none_defined(cli) {
            return Ok(None);
        }
        if !cli.memory_fits() {
            return Err(Failure::MemoryTooLarge);
        }
        match Self::from_cli_opt(cli) {
            Some(parameters) => Ok(Some(parameters)),
            None => Err(
                Failure::MissingRequiredParameters {
                    memory: cli.memory.is_none(),
                    time: cli.time.is_none(),
                    parallelism: cli.parallelism.is_none(),
                },
            ),
        }
    }

    /// The parameters that the options spell out, with the memory cost
    /// scaled by [`MEMORY_UNIT`], or `None` where memory, time or
    /// parallelism is not given. The scaled memory cost must fit in 32 bits:
    /// [`Cli::memory_fits`] tells.
    pub fn from_cli_opt(cli: &Cli) -> (r: Option<Parameters>)
        requires
            cli@.memory_fits(),
        ensures
            match r {
                Some(parameters) => Some(parameters@),
                None => None,
            } == cli@.spelled_out(),
    {
        let salt = match &cli.salt {
            Some(text) => text.as_str().as_bytes_vec(),
            None => Vec::new(),
        };
        match (cli.memory, cli.time, cli.parallelism) {
            (Some(memory), Some(time), Some(parallelism)) => Some(
                Parameters {
                    algorithm: cli.algorithm,
                    memory: memory * MEMORY_UNIT,
                    time,
                    parallelism,
                    salt,
                },
            ),
            _ => None,
        }
    }

    /// The parameters that a persisted record stands for. Fails where the
    /// record names an unknown algorithm.
    pub fn try_from(cfg: File) -> (r: Result<Parameters, Failure>)
        ensures
            match r {
                Ok(parameters) => Ok(parameters@),
                Err(e) => Err(e),
            } == cfg@.parameters(),
    {
        let algorithm = match Algorithm::from_str(cfg.algorithm.as_str()) {
            Ok(algorithm) => algorithm,
            Err(e) => {
                return Err(e);
            },
        };
        let salt = match &cfg.salt {
            Some(text) => text.as_str().as_bytes_vec(),
            None => Vec::new(),
        };
        Ok(
            Parameters {
                algorithm,
                memory: cfg.memory,
                time: cfg.time,
                parallelism: cfg.parallelism,
                salt,
            },
        )
    }

    /// Resolves the parameters of an invocation from the explicit options
    /// and the persisted record, `None` where no record exists. The record
    /// counts only where no parameter is given explicitly.
    pub fn resolve(cli: &Cli, persisted: Option<File>) -> (r: Result<Parameters, Failure>)
        ensures
            match r {
                Ok(parameters) => Ok(parameters@),
                Err(e) => Err(e),
            } == cli@.resolve(
                match persisted {
                    Some(record) => Some(record@),
                    None => None,
                },
            ),
    {
        match Self::from_cli(cli) {
            Err(e) => Err(e),
            Ok(Some(parameters)) => Ok(parameters),
            Ok(None) => match persisted {
                Some(record) => Self::try_from(record),
                None => Err(Failure::MissingConfig),
            },
        }
    }

    /// Whether the salt is empty, which deserves a warning before a name
    /// is appended to it.
    pub fn salt_is_empty(&self) -> (r: bool)
        ensures
            r == (self@.salt.len() == 0),
    {
        self.salt.len() == 0
    }

    /// Appends the UTF-8 bytes of `name` to the salt. Fails, before any
    /// derivation can start, where the result is shorter than
    /// [`MIN_SALT_LEN`].
    pub fn with_name(self, name: &str) -> (r: Result<Parameters, Failure>)
        ensures
            match r {
                Ok(parameters) => Ok(parameters@),
                Err(e) => Err(e),
            } == self@.with_name(name@),
    {
        let mut parameters = self;
        parameters.salt.extend_from_slice(name.as_bytes());
        assert(parameters.salt@ == self@.effective_salt(name@));
        if parameters.salt.len() < MIN_SALT_LEN {
            Err(Failure::SaltTooShort)
        } else {
            Ok(parameters)
        }
    }
}

/// With one base salt, two names give two salts: no two secrets of one
/// installation are derived from the same salt.
pub proof fn lemma_names_give_distinct_salts(
    parameters: ParametersView,
    name: Seq<char>,
    other: Seq<char>,
)
    requires
        name != other,
    ensures
        parameters.effective_salt(name) != parameters.effective_salt(other),
{
    let base = parameters.salt;
    let a = encode_utf8(name);
    let b = encode_utf8(other);
    if base + a == base + b {
        assert((base + a).subrange(base.len() as int, (base + a).len() as int) == a);
        assert((base + b).subrange(base.len() as int, (base + b).len() as int) == b);
        encode_utf8_decode_utf8(name);
        encode_utf8_decode_utf8(other);
    }
}

} // verus!

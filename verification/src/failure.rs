//! The ways in which resolving parameters, composing a salt, accepting a
//! passphrase, deriving or rendering a secret can fail.

use vstd::prelude::*;

verus! {

/// A failure of the derivation pipeline. Every failure is final: nothing is
/// retried, because the inputs of one invocation never change.
#[derive(Clone, Copy, Debug, PartialEq, Eq, Structural)]
pub enum Failure {
    /// Some cost or salt parameter was given explicitly, but not all of
    /// memory, time and parallelism. A `true` field marks a parameter that is
    /// missing.
    MissingRequiredParameters { memory: bool, time: bool, parallelism: bool },
    /// The memory cost, scaled, cannot be held in 32 bits.
    MemoryTooLarge,
    /// No parameter was given explicitly and there is no persisted record.
    MissingConfig,
    /// The persisted record exists but could not be read or understood.
    UnreadableConfig,
    /// The persisted record names an algorithm that is not known.
    InvalidAlgorithm,
    /// Neither an explicit configuration path nor a default location exists.
    UnresolvedConfigPath,
    /// A persisted record exists already and overwriting was not asked for.
    ConfigExists,
    /// The base salt followed by the name is shorter than the minimum.
    SaltTooShort,
    /// The passphrase is empty.
    EmptyPassphrase,
    /// The memory-hard function reported a failure.
    DerivationFailed,
    /// The encoding name is neither `hex` nor `base64`.
    UnknownEncoding,
    /// An identity was asked of a secret that is not 32 bytes long.
    IdentityLength,
    /// The checksummed text encoding refused the key material.
    IdentityEncoding,
    /// The caller reported an event that the current stage does not await.
    UnexpectedEvent,
}

impl Failure {
    /// The text of the message for this failure.
    pub open spec fn text(self) -> Seq<char> {
        match self {
            Failure::MissingRequiredParameters { memory, time, parallelism } => {
                "missing required parameters:"@ + (if memory {
                    " --memory"@
                } else {
                    Seq::<char>::empty()
                }) + (if time {
                    " --time"@
                } else {
                    Seq::<char>::empty()
                }) + (if parallelism {
                    " --parallelism"@
                } else {
                    Seq::<char>::empty()
                })
            },
            Failure::MemoryTooLarge => "--memory is too large to be scaled"@,
            Failure::MissingConfig => "missing config file"@,
            Failure::UnreadableConfig => "config file could not be read"@,
            Failure::InvalidAlgorithm => "invalid algorithm in the config file"@,
            Failure::UnresolvedConfigPath => "unable to figure out the default config location and --config wasn't provided"@,
            Failure::ConfigExists => "config file already exists, use --overwrite to replace it"@,
            Failure::SaltTooShort => "final salt (`--salt` + name) is too short, should be >= 8 bytes"@,
            Failure::EmptyPassphrase => "empty passphrase"@,
            Failure::DerivationFailed => "key derivation failed"@,
            Failure::UnknownEncoding => "unknown encoding, expected hex or base64"@,
            Failure::IdentityLength => "an identity needs a secret of exactly 32 bytes"@,
            Failure::IdentityEncoding => "the identity could not be encoded"@,
            Failure::UnexpectedEvent => "derivation steps were reported out of order"@,
        }
    }

    /// A one-line message for the operator.
    pub fn message(&self) -> (r: String)
        ensures
            r@ == self.text(),
    {
        match self {
            Failure::MissingRequiredParameters { memory, time, parallelism } => {
                let mut text = "missing required parameters:".to_owned();
                if *memory {
                    text.append(" --memory");
                }
                if *time {
                    text.append(" --time");
                }
                if *parallelism {
                    text.append(" --parallelism");
                }
                text
            },
            Failure::MemoryTooLarge => "--memory is too large to be scaled".to_owned(),
            Failure::MissingConfig => "missing config file".to_owned(),
            Failure::UnreadableConfig => "config file could not be read".to_owned(),
            Failure::InvalidAlgorithm => "invalid algorithm in the config file".to_owned(),
            Failure::UnresolvedConfigPath => "unable to figure out the default config location and --config wasn't provided".to_owned(),
            Failure::ConfigExists => "config file already exists, use --overwrite to replace it".to_owned(),
            Failure::SaltTooShort => "final salt (`--salt` + name) is too short, should be >= 8 bytes".to_owned(),
            Failure::EmptyPassphrase => "empty passphrase".to_owned(),
            Failure::DerivationFailed => "key derivation failed".to_owned(),
            Failure::UnknownEncoding => "unknown encoding, expected hex or base64".to_owned(),
            Failure::IdentityLength => "an identity needs a secret of exactly 32 bytes".to_owned(),
            Failure::IdentityEncoding => "the identity could not be encoded".to_owned(),
            Failure::UnexpectedEvent => "derivation steps were reported out of order".to_owned(),
        }
    }
}

/// Every message is a single line.
pub proof fn lemma_message_is_one_line(failure: Failure)
    ensures
        forall|i: int| 0 <= i < failure.text().len() ==> failure.text()[i] != '\n',
{
    reveal_strlit("missing required parameters:");
    reveal_strlit(" --memory");
    reveal_strlit(" --time");
    reveal_strlit(" --parallelism");
    reveal_strlit("--memory is too large to be scaled");
    reveal_strlit("missing config file");
    reveal_strlit("config file could not be read");
    reveal_strlit("invalid algorithm in the config file");
    reveal_strlit("unable to figure out the default config location and --config wasn't provided");
    reveal_strlit("config file already exists, use --overwrite to replace it");
    reveal_strlit("final salt (`--salt` + name) is too short, should be >= 8 bytes");
    reveal_strlit("empty passphrase");
    reveal_strlit("key derivation failed");
    reveal_strlit("unknown encoding, expected hex or base64");
    reveal_strlit("an identity needs a secret of exactly 32 bytes");
    reveal_strlit("the identity could not be encoded");
    reveal_strlit("derivation steps were reported out of order");
}

} // verus!

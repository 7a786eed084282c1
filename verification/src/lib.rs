//! Deterministic derivation of secrets and age identities from a passphrase
//! and a named slot, with Argon2 as the memory-hard function.
//!
//! The same passphrase, cost parameters, salt and name always give the same
//! secret, so no secret is ever stored: only the cost parameters and the salt
//! are.
//!
//! A derivation runs through these parts, in this order:
//!
//! * [`argon2`]: the parameters are resolved, from explicit options or else
//!   from the persisted record ([`config`]), all or nothing; then the name of
//!   the secret is appended to the salt, which must reach a minimum length;
//! * [`passphrase`]: a line of input becomes the passphrase, which must not be
//!   empty;
//! * [`derivation`]: the request for the memory-hard function is made up, and
//!   its output is checked;
//! * [`encoding`] or [`age`]: the secret is written out as text, or as an age
//!   identity.
//!
//! The library reads nothing and prints nothing, and it does not run Argon2
//! itself. [`Job::step`] decides what is done next and with which values; the
//! caller does it and reports back.
//!
//! # What is proved and what is taken on trust
//!
//! Every function is verified by Verus against the contract it carries, but
//! for the few that call into other crates, or into a part of the standard
//! library that `vstd` does not specify. Their contracts are taken on trust:
//!
//! * `String::from_utf8`, in [`config`]: stated over `vstd`'s model of UTF-8;
//! * `hex::encode` and `base64`'s standard engine, in [`encoding`]: stated in
//!   full, by [`encoding::hex_text`] and [`encoding::base64_text`];
//! * the X25519 public key, `bech32::encode` and `str::to_uppercase`, in
//!   [`age`]: their results are given names, [`age::x25519_public_key`],
//!   [`age::bech32_text`] and [`age::uppercase_text`], and nothing is claimed
//!   of what these are, only that equal arguments give equal results.

pub mod age;
pub mod argon2;
pub mod cli;
pub mod config;
pub mod derivation;
pub mod encoding;
pub mod failure;
pub mod passphrase;

pub use age::{identity, identity_of_secret, KEY_LEN};
pub use argon2::{Algorithm, Parameters, MEMORY_UNIT, MIN_SALT_LEN};
pub use cli::{Cli, CONFIG_FILE_NAME};
pub use config::File;
pub use derivation::{Action, Event, Job, Request, Stage, DEFAULT_OUTPUT_LEN};
pub use encoding::{encode_secret, Encoding};
pub use failure::Failure;
pub use passphrase::{accept_passphrase, PassphraseSource};

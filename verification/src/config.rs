//! The persisted record of derivation parameters.

use vstd::prelude::*;
use vstd::utf8::*;

use crate::argon2::{Parameters, ParametersView};
use crate::cli::{Cli, CliView};
use crate::failure::Failure;

verus! {

/// The parameters as they are kept between invocations: the algorithm by its
/// tag, the memory cost already scaled, the salt as text.
#[derive(Clone, Debug, PartialEq, Eq)]
pub struct File {
    pub algorithm: String,
    pub memory: u32,
    pub time: u32,
    pub parallelism: u32,
    pub salt: Option<String>,
}

/// The mathematical content of a [`File`].
pub struct FileView {
    pub algorithm: Seq<char>,
    pub memory: u32,
    pub time: u32,
    pub parallelism: u32,
    pub salt: Option<Seq<char>>,
}

impl View for File {
    type V = FileView;

    open spec fn view(&self) -> FileView {
        FileView {
            algorithm: self.algorithm@,
            memory: self.memory,
            time: self.time,
            parallelism: self.parallelism,
            salt: match self.salt {
                Some(text) => Some(text@),
                None => None,
            },
        }
    }
}

/// A salt text as a record keeps it: an empty text is not kept.
pub open spec fn kept_salt(text: Seq<char>) -> Option<Seq<char>> {
    if text.len() == 0 {
        None
    } else {
        Some(text)
    }
}

impl ParametersView {
    /// The record that persists these parameters. The salt must be the
    /// UTF-8 encoding of a text.
    pub open spec fn record(self) -> FileView {
        FileView {
            algorithm: self.algorithm.tag(),
            memory: self.memory,
            time: self.time,
            parallelism: self.parallelism,
            salt: kept_salt(decode_utf8(self.salt)),
        }
    }
}

impl CliView {
    /// The record that a configuration run writes: none where a record
    /// exists and may not be overwritten, else the record of the explicit
    /// parameters, which must be given.
    pub open spec fn configure(self, exists: bool, overwrite: bool) -> Result<FileView, Failure> {
        if exists && !overwrite {
            Err(Failure::ConfigExists)
        } else {
            match self.explicit() {
                Err(e) => Err(e),
                Ok(None) => Err(self.missing()),
                Ok(Some(parameters)) => Ok(parameters.record()),
            }
        }
    }
}

/// The decimal digit for a value below 10.
pub open spec fn decimal_digit(value: nat) -> char {
    "0123456789"@[value as int]
}

/// A number written in decimal, without leading zeros.
pub open spec fn decimal_text(n: nat) -> Seq<char>
    decreases n,
{
    if n < 10 {
        seq![decimal_digit(n)]
    } else {
        decimal_text(n / 10).push(decimal_digit(n % 10))
    }
}

impl FileView {
    /// The record as five lines for the operator, one for each field, the
    /// numbers with their units.
    pub open spec fn summary(self) -> Seq<char> {
        "Algorithm: "@ + self.algorithm + "\nMemory: "@ + decimal_text(self.memory as nat)
            + " (KiB)\nTime: "@ + decimal_text(self.time as nat) + " (iterations)\nParallelism: "@
            + decimal_text(self.parallelism as nat) + " (threads)\nSalt: "@ + (match self.salt {
            Some(text) => text,
            None => Seq::<char>::empty(),
        }) + "\n"@
    }
}

fn digit(value: u32) -> (r: &'static str)
    requires
        value < 10,
    ensures
        r@ == seq![decimal_digit(value as nat)],
{
    proof {
        reveal_strlit("0123456789");
        reveal_strlit("0");
        reveal_strlit("1");
        reveal_strlit("2");
        reveal_strlit("3");
        reveal_strlit("4");
        reveal_strlit("5");
        reveal_strlit("6");
        reveal_strlit("7");
        reveal_strlit("8");
        reveal_strlit("9");
    }
    match value {
        0 => "0",
        1 => "1",
        2 => "2",
        3 => "3",
        4 => "4",
        5 => "5",
        6 => "6",
        7 => "7",
        8 => "8",
        _ => "9",
    }
}

/// Writes a number in decimal.
pub fn decimal(n: u32) -> (r: String)
    ensures
        r@ == decimal_text(n as nat),
    decreases n,
{
    if n < 10 {
        digit(n).to_owned()
    } else {
        let mut text = decimal(n / 10);
        text.append(digit(n % 10));
        text
    }
}

/// `String::from_utf8` of the standard library: the text whose UTF-8
/// encoding is `bytes`, which exists exactly where `bytes` is valid UTF-8.
#[verifier::external_body]
fn text_from_utf8(bytes: Vec<u8>) -> (r: Option<String>)
    ensures
        r is Some <==> valid_utf8(bytes@),
        r matches Some(text) ==> encode_utf8(text@) == bytes@,
{
    String::from_utf8(bytes).ok()
}

impl File {
    /// The record that persists `params`. An empty salt is left out of it.
    pub fn from(params: Parameters) -> (r: File)
        requires
            valid_utf8(params@.salt),
        ensures
            r@ == params@.record(),
    {
        let algorithm = params.algorithm.as_str().to_owned();
        let memory = params.memory;
        let time = params.time;
        let parallelism = params.parallelism;
        let salt = match text_from_utf8(params.salt) {
            Some(text) => {
                proof {
                    encode_utf8_decode_utf8(text@);
                }
                if text.as_str().is_empty() {
                    None
                } else {
                    Some(text)
                }
            },
            None => None,
        };
        File { algorithm, memory, time, parallelism, salt }
    }

    /// Decides what a configuration run writes. `exists` tells whether a
    /// record is there already, `overwrite` whether replacing it was asked
    /// for. The parameters must all be given explicitly.
    pub fn configure(cli: &Cli, exists: bool, overwrite: bool) -> (r: Result<File, Failure>)
        ensures
            match r {
                Ok(record) => Ok(record@),
                Err(e) => Err(e),
            } == cli@.configure(exists, overwrite),
    {
        if exists && !overwrite {
            return Err(Failure::ConfigExists);
        }
        match Parameters::from_cli(cli) {
            Err(e) => Err(e),
            Ok(None) => Err(
                Failure::MissingRequiredParameters { memory: true, time: true, parallelism: true },
            ),
            Ok(Some(parameters)) => {
                proof {
                    lemma_salt_bytes_are_text(cli@.salt);
                }
                Ok(File::from(parameters))
            },
        }
    }

    /// The record as text for the operator.
    pub fn summary(&self) -> (r: String)
        ensures
            r@ == self@.summary(),
    {
        let mut text = "Algorithm: ".to_owned();
        text.append(self.algorithm.as_str());
        text.append("\nMemory: ");
        text.append(decimal(self.memory).as_str());
        text.append(" (KiB)\nTime: ");
        text.append(decimal(self.time).as_str());
        text.append(" (iterations)\nParallelism: ");
        text.append(decimal(self.parallelism).as_str());
        text.append(" (threads)\nSalt: ");
        if let Some(salt) = &self.salt {
            text.append(salt.as_str());
        }
        text.append("\n");
        text
    }
}

/// The bytes of a salt text are valid UTF-8 and decode to that text.
pub proof fn lemma_salt_bytes_are_text(salt: Option<Seq<char>>)
    ensures
        valid_utf8(crate::argon2::salt_bytes(salt)),
        decode_utf8(crate::argon2::salt_bytes(salt)) == match salt {
            Some(text) => text,
            None => Seq::<char>::empty(),
        },
{
    if let Some(text) = salt {
        encode_utf8_valid_utf8(text);
        encode_utf8_decode_utf8(text);
    }
}

/// What is configured is what is later resolved: a record written for fully
/// given options stands for the very parameters that those options spell
/// out.
pub proof fn lemma_record_round_trip(cli: CliView)
    requires
        cli.spelled_out() is Some,
    ensures
        cli.spelled_out()->0.record().parameters() == Ok::<ParametersView, Failure>(
            cli.spelled_out()->0,
        ),
{
    let parameters = cli.spelled_out()->0;
    crate::argon2::Algorithm::lemma_tag_round_trip(parameters.algorithm);
    lemma_salt_bytes_are_text(cli.salt);
}

} // verus!

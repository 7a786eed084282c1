//! Rendering a derived secret as text.

use base64::Engine;
use vstd::prelude::*;

use crate::failure::Failure;

verus! {

/// The encodings in which a secret can be written out.
#[derive(Clone, Copy, Debug, PartialEq, Eq, Structural)]
pub enum Encoding {
    /// Two lowercase hexadecimal digits for each byte.
    Hex,
    /// Base64 with the standard alphabet and padding.
    Base64,
}

/// The digit for a value below 16.
pub open spec fn hex_digit(value: int) -> char {
    "0123456789abcdef"@[value]
}

/// The hexadecimal text of a byte sequence: for each byte its high four
/// bits as a digit, then its low four bits.
pub open spec fn hex_text(bytes: Seq<u8>) -> Seq<char> {
    Seq::new(
        2 * bytes.len(),
        |i: int|
            if i % 2 == 0 {
                hex_digit(bytes[i / 2] as int / 16)
            } else {
                hex_digit(bytes[i / 2] as int % 16)
            },
    )
}

/// The symbol for a value below 64 in the standard base64 alphabet.
pub open spec fn base64_symbol(value: int) -> char {
    "ABCDEFGHIJKLMNOPQRSTUVWXYZabcdefghijklmnopqrstuvwxyz0123456789+/"@[value]
}

/// The base64 text of a byte sequence: each group of three bytes is read as
/// four values of six bits, the most significant first; a last group of one
/// or two bytes is filled up with zero bits and its text with `=`.
pub open spec fn base64_text(bytes: Seq<u8>) -> Seq<char>
    decreases bytes.len(),
{
    if bytes.len() == 0 {
        Seq::<char>::empty()
    } else if bytes.len() == 1 {
        seq![
            base64_symbol(bytes[0] as int / 4),
            base64_symbol(bytes[0] as int % 4 * 16),
            '=',
            '=',
        ]
    } else if bytes.len() == 2 {
        seq![
            base64_symbol(bytes[0] as int / 4),
            base64_symbol(bytes[0] as int % 4 * 16 + bytes[1] as int / 16),
            base64_symbol(bytes[1] as int % 16 * 4),
            '=',
        ]
    } else {
        seq![
            base64_symbol(bytes[0] as int / 4),
            base64_symbol(bytes[0] as int % 4 * 16 + bytes[1] as int / 16),
            base64_symbol(bytes[1] as int % 16 * 4 + bytes[2] as int / 64),
            base64_symbol(bytes[2] as int % 64),
        ] + base64_text(bytes.skip(3))
    }
}

impl Default for Encoding {
    /// The encoding used when none is asked for.
    fn default() -> (r: Encoding)
        ensures
            r == Encoding::Hex,
    {
        Encoding::Hex
    }
}

impl Encoding {
    /// The name of an encoding.
    pub open spec fn label(self) -> Seq<char> {
        match self {
            Encoding::Hex => "hex"@,
            Encoding::Base64 => "base64"@,
        }
    }

    /// The encoding that a name stands for, if any.
    pub open spec fn of_name(name: Seq<char>) -> Option<Encoding> {
        if name == "hex"@ {
            Some(Encoding::Hex)
        } else if name == "base64"@ {
            Some(Encoding::Base64)
        } else {
            None
        }
    }

    /// The text of a byte sequence in this encoding.
    pub open spec fn text(self, bytes: Seq<u8>) -> Seq<char> {
        match self {
            Encoding::Hex => hex_text(bytes),
            Encoding::Base64 => base64_text(bytes),
        }
    }

    /// Reads the name of an encoding. Exactly `hex` and `base64` are known.
    pub fn from_name(name: &str) -> (r: Result<Encoding, Failure>)
        ensures
            r == match Encoding::of_name(name@) {
                Some(encoding) => Ok::<Encoding, Failure>(encoding),
                None => Err(Failure::UnknownEncoding),
            },
    {
        let name = name.to_owned();
        if name == "hex".to_owned() {
            Ok(Encoding::Hex)
        } else if name == "base64".to_owned() {
            Ok(Encoding::Base64)
        } else {
            Err(Failure::UnknownEncoding)
        }
    }

    /// The name of this encoding.
    pub fn name(&self) -> (r: &'static str)
        ensures
            r@ == self.label(),
    {
        match self {
            Encoding::Hex => "hex",
            Encoding::Base64 => "base64",
        }
    }

    /// The name of an encoding reads back as that encoding.
    pub proof fn lemma_name_round_trip(encoding: Encoding)
        ensures
            Encoding::of_name(encoding.label()) == Some(encoding),
    {
        reveal_strlit("hex");
        reveal_strlit("base64");
        assert("base64"@.len() == 6);
    }

    /// Writes `bytes` out in this encoding.
    pub fn encode(&self, bytes: &[u8]) -> (r: String)
        ensures
            r@ == self.text(bytes@),
    {
        match self {
            Encoding::Hex => hex_encode(bytes),
            Encoding::Base64 => base64_encode(bytes),
        }
    }
}

/// `hex::encode`: each byte as two hexadecimal digits, in lowercase, the
/// digit of the high four bits first.
#[verifier::external_body]
fn hex_encode(bytes: &[u8]) -> (r: String)
    ensures
        r@ == hex_text(bytes@),
{
    hex::encode(bytes)
}

/// `Engine::encode` of the `base64` crate on its engine
/// `general_purpose::STANDARD`: base64 with the alphabet of RFC 4648 and
/// with padding.
#[verifier::external_body]
fn base64_encode(bytes: &[u8]) -> (r: String)
    ensures
        r@ == base64_text(bytes@),
{
    base64::engine::general_purpose::STANDARD.encode(bytes)
}

/// The text of a secret in the encoding of the given name.
pub open spec fn encoded_secret(bytes: Seq<u8>, encoding: Seq<char>) -> Result<Seq<char>, Failure> {
    match Encoding::of_name(encoding) {
        Some(encoding) => Ok(encoding.text(bytes)),
        None => Err(Failure::UnknownEncoding),
    }
}

/// Writes a secret out in the encoding named `hex` or `base64`. Any other
/// name is refused.
pub fn encode_secret(bytes: &[u8], encoding: &str) -> (r: Result<String, Failure>)
    ensures
        match r {
            Ok(text) => Ok(text@),
            Err(e) => Err(e),
        } == encoded_secret(bytes@, encoding@),
{
    match Encoding::from_name(encoding) {
        Ok(encoding) => Ok(encoding.encode(bytes)),
        Err(e) => Err(e),
    }
}

} // verus!

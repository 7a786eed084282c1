//! A derived secret as an age identity: an X25519 key pair in Bech32.

use vstd::prelude::*;

use crate::config::FileView;
use crate::derivation::JobView;
use crate::failure::Failure;
use crate::passphrase::without_line_ending;

verus! {

/// `bech32::Error`, carried from the encoder to the place where it becomes
/// a [`Failure`].
#[verifier::external_type_specification]
#[verifier::external_body]
pub struct ExBech32Error(bech32::Error);

/// The length of an X25519 key, in bytes.
pub const KEY_LEN: usize = 32;

/// The X25519 public key that belongs to a private key: the base point
/// multiplied by the clamped private scalar, as 32 bytes.
pub uninterp spec fn x25519_public_key(private_key: Seq<u8>) -> Seq<u8>;

/// The Bech32 string, in lowercase, for a human-readable part and a payload
/// of bytes: the part, the separator `1`, the payload in base 32 and the
/// checksum.
pub uninterp spec fn bech32_text(hrp: Seq<char>, data: Seq<u8>) -> Seq<char>;

/// The uppercase form of a text, as Unicode defines it.
pub uninterp spec fn uppercase_text(text: Seq<char>) -> Seq<char>;

/// What the Bech32 encoder demands of a human-readable part: 1 to 83
/// characters, all of them printable ASCII, not both lowercase and uppercase
/// letters among them.
pub open spec fn hrp_is_valid(hrp: Seq<char>) -> bool {
    &&& 1 <= hrp.len() <= 83
    &&& forall|i: int| 0 <= i < hrp.len() ==> 33 <= #[trigger] hrp[i] as u32 <= 126
    &&& !({
        &&& exists|i: int| 0 <= i < hrp.len() && 'a' <= #[trigger] hrp[i] <= 'z'
        &&& exists|i: int| 0 <= i < hrp.len() && 'A' <= #[trigger] hrp[i] <= 'Z'
    })
}

/// The text of the identity of a private key: a comment line with the
/// public key under the prefix `age`, then the private key under the prefix
/// `AGE-SECRET-KEY-`, in uppercase.
pub open spec fn identity_text(private_key: Seq<u8>) -> Seq<char> {
    "# public key: "@ + bech32_text("age"@, x25519_public_key(private_key)) + "\n"@
        + uppercase_text(bech32_text("AGE-SECRET-KEY-"@, private_key)) + "\n"@
}

/// The identity of a derived secret, which must be a key of [`KEY_LEN`]
/// bytes.
pub open spec fn identity_of(secret: Seq<u8>) -> Result<Seq<char>, Failure> {
    if secret.len() == KEY_LEN {
        Ok(identity_text(secret))
    } else {
        Err(Failure::IdentityLength)
    }
}

/// `PublicKey::from(&StaticSecret)` of `x25519-dalek`, on the secret made
/// of `private_key` by `StaticSecret::from`: the public key of that private
/// key, as its 32 bytes.
#[verifier::external_body]
fn public_key(private_key: [u8; 32]) -> (r: [u8; 32])
    ensures
        r@ == x25519_public_key(private_key@),
{
    x25519_dalek::PublicKey::from(&x25519_dalek::StaticSecret::from(private_key)).to_bytes()
}

/// `bech32::encode` with the variant `Bech32`, on the payload that
/// `ToBase32::to_base32` makes of `bytes`. The encoder fails exactly where
/// it refuses the human-readable part.
#[verifier::external_body]
fn bech32_encode(hrp: &str, bytes: &[u8]) -> (r: Result<String, bech32::Error>)
    ensures
        r is Ok <==> hrp_is_valid(hrp@),
        r matches Ok(text) ==> text@ == bech32_text(hrp@, bytes@),
{
    bech32::encode(hrp, bech32::ToBase32::to_base32(&bytes), bech32::Variant::Bech32)
}

/// `str::to_uppercase` of the standard library.
#[verifier::external_body]
fn to_uppercase(text: &str) -> (r: String)
    ensures
        r@ == uppercase_text(text@),
{
    text.to_uppercase()
}

/// Both prefixes of an identity are acceptable to the Bech32 encoder.
proof fn lemma_prefixes_are_valid()
    ensures
        hrp_is_valid("age"@),
        hrp_is_valid("AGE-SECRET-KEY-"@),
{
    reveal_strlit("age");
    reveal_strlit("AGE-SECRET-KEY-");
}

/// The age identity of a private key: the line `# public key: ` with the
/// public key, and the line with the private key. It never fails.
pub fn identity(private_key: [u8; 32]) -> (r: Result<String, Failure>)
    ensures
        r matches Ok(text) && text@ == identity_text(private_key@),
{
    proof {
        lemma_prefixes_are_valid();
    }
    let public = public_key(private_key);
    let public_text = match bech32_encode("age", public.as_slice()) {
        Ok(text) => text,
        Err(_) => {
            return Err(Failure::IdentityEncoding);
        },
    };
    let private_text = match bech32_encode("AGE-SECRET-KEY-", private_key.as_slice()) {
        Ok(text) => to_uppercase(text.as_str()),
        Err(_) => {
            return Err(Failure::IdentityEncoding);
        },
    };
    let mut text = "# public key: ".to_owned();
    text.append(public_text.as_str());
    text.append("\n");
    text.append(private_text.as_str());
    text.append("\n");
    Ok(text)
}

/// The age identity of a derived secret. Fails where the secret is not
/// [`KEY_LEN`] bytes long.
pub fn identity_of_secret(secret: &[u8]) -> (r: Result<String, Failure>)
    ensures
        match r {
            Ok(text) => Ok(text@),
            Err(e) => Err(e),
        } == identity_of(secret@),
{
    if secret.len() != KEY_LEN {
        return Err(Failure::IdentityLength);
    }
    let mut key = [0u8; 32];
    let mut i: usize = 0;
    while i < KEY_LEN
        invariant
            i <= KEY_LEN,
            secret@.len() == KEY_LEN,
            forall|j: int| 0 <= j < i ==> key@[j] == secret@[j],
        decreases KEY_LEN - i,
    {
        key[i] = secret[i];
        i = i + 1;
    }
    assert(key@ =~= secret@);
    identity(key)
}

/// The identity that a derivation ends with.
pub open spec fn derived_identity(outcome: Result<Seq<u8>, Failure>) -> Result<Seq<char>, Failure> {
    match outcome {
        Ok(secret) => identity_of(secret),
        Err(e) => Err(e),
    }
}

/// Deriving an identity again gives the same text for the public key and
/// for the private key: two derivations of [`KEY_LEN`] bytes with the same
/// algorithm, memory cost, time cost, parallelism, base salt, name and
/// passphrase end with the same identity where the memory-hard function
/// returns the same output. And a secret that was derived for an identity
/// always has one.
pub proof fn lemma_identity_is_reproducible(
    a: JobView,
    b: JobView,
    persisted_a: Option<FileView>,
    persisted_b: Option<FileView>,
    line_a: Seq<char>,
    line_b: Seq<char>,
    output: Option<Seq<u8>>,
)
    requires
        a.cli.resolve(persisted_a) == b.cli.resolve(persisted_b),
        a.name == b.name,
        a.output_len == KEY_LEN,
        b.output_len == KEY_LEN,
        without_line_ending(line_a) == without_line_ending(line_b),
    ensures
        derived_identity(a.outcome(persisted_a, line_a, output)) == derived_identity(
            b.outcome(persisted_b, line_b, output),
        ),
        a.outcome(persisted_a, line_a, output) matches Ok(secret) ==> derived_identity(
            a.outcome(persisted_a, line_a, output),
        ) == Ok::<Seq<char>, Failure>(identity_text(secret)),
{
    crate::derivation::lemma_derivation_is_determined(
        a,
        b,
        persisted_a,
        persisted_b,
        line_a,
        line_b,
        output,
    );
}

} // verus!

//! The feeder's signing key, derived from a secret URI (a seed phrase or hex
//! seed, with optional derivation path and password).

use crate::error::Error;
use crate::feeder::has_prefix;
use crate::key_derivation::{keypair_from_uri, parse_secret_uri, secret_uri_error_message};
use subxt_signer::sr25519::Error as DerivationError;
use subxt_signer::sr25519::Keypair;
use subxt_signer::{SecretUri, SecretUriError};
use vstd::prelude::*;

pub use crate::key_derivation::{ParsedSecretUri, SigningKey};

verus! {

/// subxt_signer's `SecretUri`, a parsed secret URI.
#[verifier::external_type_specification]
#[verifier::external_body]
pub struct ExSecretUri(SecretUri);

/// subxt_signer's `SecretUriError`, the refusal of a malformed secret URI.
#[verifier::external_type_specification]
#[verifier::external_body]
pub struct ExSecretUriError(SecretUriError);

/// subxt_signer's sr25519 `Keypair`.
#[verifier::external_type_specification]
#[verifier::external_body]
pub struct ExKeypair(Keypair);

/// subxt_signer's sr25519 `Error`, the refusal of a key derivation.
#[verifier::external_type_specification]
#[verifier::external_body]
pub struct ExKeypairError(DerivationError);

/// Whether subxt_signer's `SecretUri::from_str` accepts the text `s`.
pub uninterp spec fn secret_uri_accepts(s: Seq<char>) -> bool;

/// The public key (32 bytes) of the sr25519 pair that `Keypair::from_uri`
/// derives from the secret URI parsed from the text `uri_text`, or `None`
/// when the derivation fails (the phrase is neither a 32-byte hex seed nor a
/// valid BIP-39 mnemonic).
pub uninterp spec fn derived_public_key(uri_text: Seq<char>) -> Option<Seq<u8>>;

/// Whether `msg` is one of the messages of a key derivation error: each of
/// its variants writes one of these prefixes, followed by the cause.
pub open spec fn is_derivation_error_message(msg: Seq<char>) -> bool {
    ||| has_prefix(msg, "Invalid seed (was it the wrong length?)"@)
    ||| has_prefix(msg, "Cannot parse phrase: "@)
    ||| has_prefix(msg, "Cannot parse hex string: "@)
    ||| has_prefix(msg, "Signature error: "@)
}

/// Calls `Display` on a key derivation error. Stated: the message begins
/// with the prefix of the error's variant. Not stated: the cause that follows.
#[verifier::external_body]
fn keypair_error_message(e: &DerivationError) -> (msg: String)
    ensures
        is_derivation_error_message(msg@),
{
    e.to_string()
}

/// The public key of the sr25519 pair that the secret URI `seed` names: none
/// when the text is not a secret URI or no pair can be derived from it.
pub open spec fn seed_public_key(seed: Seq<char>) -> Option<Seq<u8>> {
    if secret_uri_accepts(seed) {
        derived_public_key(seed)
    } else {
        None
    }
}

/// Derives the sr25519 key pair that a secret URI `seed` names. A seed that is
/// not a secret URI is refused with subxt_signer's message for that; a
/// derivation that fails is refused with the message of its error.
pub fn keypair_from_seed(seed: &str) -> (r: Result<SigningKey, Error>)
    ensures
        r is Ok <==> seed_public_key(seed@) is Some,
        r matches Ok(k) ==> Some(k.public_key_view()) == seed_public_key(seed@),
        r matches Ok(k) ==> k.derived_from() == seed@,
        !secret_uri_accepts(seed@) ==> (r matches Err(Error::Custom(msg))
            && msg@ == "Invalid secret phrase format"@),
        secret_uri_accepts(seed@) ==> (r matches Err(Error::Custom(msg)) ==> is_derivation_error_message(msg@)),
{
    match parse_secret_uri(seed) {
        Err(e) => Err(Error::Custom(secret_uri_error_message(&e))),
        Ok(uri) => match keypair_from_uri(&uri) {
            Ok(keypair) => Ok(keypair),
            Err(e) => Err(Error::Custom(keypair_error_message(&e))),
        },
    }
}

/// Loads the feeder's test key from the value of its environment variable:
/// `Err` carries the message of a failed lookup, which becomes the error;
/// otherwise the value is the secret URI of the key.
pub fn load_cyborg_test_key(mnemonic: Result<String, String>) -> (r: Result<SigningKey, Error>)
    ensures
        mnemonic matches Err(msg) ==> (r matches Err(Error::Custom(m)) && m == msg),
        mnemonic matches Ok(seed) ==> (r is Ok <==> seed_public_key(seed@) is Some),
        mnemonic matches Ok(seed) ==> (r matches Ok(k) ==> Some(k.public_key_view())
            == seed_public_key(seed@)),
        mnemonic matches Ok(seed) ==> (r matches Ok(k) ==> k.derived_from() == seed@),
        mnemonic matches Ok(seed) ==> (!secret_uri_accepts(seed@) ==> (r matches Err(
            Error::Custom(m),
        ) && m@ == "Invalid secret phrase format"@)),
{
    match mnemonic {
        Err(msg) => Err(Error::Custom(msg)),
        Ok(seed) => keypair_from_seed(seed.as_str()),
    }
}

} // verus!

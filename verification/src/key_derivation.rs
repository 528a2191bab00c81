//! Secret URIs and the key pairs derived from them. A parsed URI keeps the
//! text it was parsed from, and a signing key is made only here, by one call
//! of `Keypair::from_uri` whose pair and public key it holds together.

use crate::account::derived_public_key;
use crate::account::secret_uri_accepts;
use std::str::FromStr;
use subxt_signer::sr25519::Error as DerivationError;
use subxt_signer::sr25519::Keypair;
use subxt_signer::{SecretUri, SecretUriError};
use vstd::prelude::*;

verus! {

/// A parsed secret URI, taken by the text it was parsed from.
pub struct ParsedSecretUri {
    uri: SecretUri,
    text: String,
}

impl View for ParsedSecretUri {
    type V = Seq<char>;

    closed spec fn view(&self) -> Seq<char> {
        self.text@
    }
}

/// An sr25519 key pair with its public key, and the text of the secret URI
/// it was derived from. Only `keypair_from_uri` makes one, from a single
/// derivation, so the pair and the public key always belong together.
pub struct SigningKey {
    keypair: Keypair,
    public_key: [u8; 32],
    derived_from: Ghost<Seq<char>>,
}

impl SigningKey {
    /// The text of the secret URI that the pair was derived from.
    pub closed spec fn derived_from(&self) -> Seq<char> {
        self.derived_from@
    }

    /// The public key of the pair, as bytes.
    pub closed spec fn public_key_view(&self) -> Seq<u8> {
        self.public_key@
    }

    /// The key pair itself.
    pub closed spec fn keypair_view(&self) -> Keypair {
        self.keypair
    }

    /// The public key of the pair.
    pub fn public_key(&self) -> (pk: [u8; 32])
        ensures
            pk@ == self.public_key_view(),
    {
        self.public_key
    }

    /// The key pair, for signing.
    pub fn keypair(&self) -> (kp: &Keypair)
        ensures
            *kp == self.keypair_view(),
    {
        &self.keypair
    }

    /// Gives up the public key and hands out the key pair.
    pub fn into_keypair(self) -> (kp: Keypair)
        ensures
            kp == self.keypair_view(),
    {
        self.keypair
    }
}

/// Calls `SecretUri::from_str`, which matches the text against the secret URI
/// pattern (phrase, derivation path, password), and keeps the text with the
/// parsed URI. Stated: whether it succeeds depends on the text alone.
#[verifier::external_body]
pub(crate) fn parse_secret_uri(s: &str) -> (r: Result<ParsedSecretUri, SecretUriError>)
    ensures
        r is Ok <==> secret_uri_accepts(s@),
        r matches Ok(p) ==> p@ == s@,
{
    SecretUri::from_str(s).map(|uri| ParsedSecretUri { uri, text: s.to_string() })
}

/// Calls `Display` on a `SecretUriError`. Its only variant, `InvalidFormat`,
/// reads "Invalid secret phrase format".
#[verifier::external_body]
pub(crate) fn secret_uri_error_message(e: &SecretUriError) -> (msg: String)
    ensures
        msg@ == "Invalid secret phrase format"@,
{
    e.to_string()
}

/// Calls `Keypair::from_uri`, which derives an sr25519 key pair from a parsed
/// secret URI (hex seed, or BIP-39 phrase with password, then the derivation
/// path), and reads the public key of the pair it derives. Stated: it
/// succeeds exactly when `derived_public_key` of the URI's text is a key,
/// and then the pair's public key is that key.
#[verifier::external_body]
pub(crate) fn keypair_from_uri(uri: &ParsedSecretUri) -> (r: Result<SigningKey, DerivationError>)
    ensures
        r is Ok <==> derived_public_key(uri@) is Some,
        r matches Ok(k) ==> Some(k.public_key_view()) == derived_public_key(uri@),
        r matches Ok(k) ==> k.derived_from() == uri@,
{
    Keypair::from_uri(&uri.uri).map(
        |keypair| SigningKey {
            public_key: keypair.public_key().0,
            keypair,
            derived_from: Ghost(uri@),
        },
    )
}

} // verus!

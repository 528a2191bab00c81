//! The builder of a feeder: it starts without a key and gets one from a seed.

use crate::account::{keypair_from_seed, secret_uri_accepts, seed_public_key, SigningKey};
use crate::error::Error;
use crate::feeder::SharedState;
use crate::oracle::{OracleKeyView, OracleValue};
use vstd::prelude::*;
use vstd::string::*;

verus! {

/// The name of the feeder's directory inside the user's data directory.
pub const DATA_DIR_NAME: &'static str = "cyborg-oracle-feeder";

/// The directory used when the user has no data directory.
pub const FALLBACK_DIR: &'static str = ".";

/// Marks a builder that has no key yet.
pub struct NoKeypair;

/// The key a builder has been given.
pub struct AccountKeypair(pub SigningKey);

/// Builds a feeder: its key, the state its cycles share, and its data
/// directory (a path, held as its encoded bytes).
pub struct CyborgOracleFeederBuilder<K> {
    pub keypair: K,
    shared_state: SharedState,
    data_dir: Vec<u8>,
}

/// The byte `/`, the path separator.
pub const PATH_SEPARATOR: u8 = 47;

/// A path with the relative path `name` appended, as std's `Path::join` does
/// on Unix: a `/` goes between them unless `base` is empty or already ends in
/// one.
pub open spec fn path_joined(base: Seq<u8>, name: Seq<u8>) -> Seq<u8> {
    if base.len() == 0 || base.last() == PATH_SEPARATOR {
        base + name
    } else {
        base + seq![PATH_SEPARATOR] + name
    }
}

/// The feeder's data directory, given the user's data directory (`None` when
/// the user has none): `cyborg-oracle-feeder` inside it, or inside the
/// current directory.
pub open spec fn data_dir_for(user_data_dir: Option<Seq<u8>>) -> Seq<u8> {
    let base = match user_data_dir {
        Some(d) => d,
        None => FALLBACK_DIR.spec_bytes(),
    };
    path_joined(base, DATA_DIR_NAME.spec_bytes())
}

/// The relative path `name` appended to `base`.
pub fn join_path(base: &[u8], name: &[u8]) -> (path: Vec<u8>)
    ensures
        path@ == path_joined(base@, name@),
{
    let n = base.len();
    let mut path = vstd::slice::slice_to_vec(base);
    let mut tail = vstd::slice::slice_to_vec(name);
    if n != 0 && base[n - 1] != PATH_SEPARATOR {
        path.push(PATH_SEPARATOR);
    }
    path.append(&mut tail);
    path
}

/// Calls `dirs::data_dir`, the user's data directory, and hands its path
/// over as its encoded bytes (`OsString::into_encoded_bytes`). Nothing is
/// stated of the result: it depends on the environment (`XDG_DATA_HOME`, the
/// home directory).
#[verifier::external_body]
fn user_data_dir() -> Option<Vec<u8>> {
    dirs::data_dir().map(|p| p.into_os_string().into_encoded_bytes())
}

impl CyborgOracleFeederBuilder<NoKeypair> {
    /// A builder without a key, with nothing collected, for the given user
    /// data directory (its path as encoded bytes).
    pub fn for_user_data_dir(user_data_dir: Option<Vec<u8>>) -> (builder: Self)
        ensures
            builder.shared_state_view() is None,
            builder.data_dir_view() == data_dir_for(
                match user_data_dir {
                    Some(d) => Some(d@),
                    None => None,
                },
            ),
    {
        let data_dir = match user_data_dir {
            Some(d) => join_path(d.as_slice(), DATA_DIR_NAME.as_bytes()),
            None => join_path(FALLBACK_DIR.as_bytes(), DATA_DIR_NAME.as_bytes()),
        };
        CyborgOracleFeederBuilder { keypair: NoKeypair, shared_state: SharedState::new(), data_dir }
    }
}

impl Default for CyborgOracleFeederBuilder<NoKeypair> {
    /// A builder without a key, with nothing collected, whose data directory
    /// is `cyborg-oracle-feeder` inside the user's data directory (inside the
    /// current directory when there is none).
    fn default() -> (builder: Self)
        ensures
            builder.shared_state_view() is None,
            exists|user_data_dir: Option<Seq<u8>>|
                builder.data_dir_view() == data_dir_for(user_data_dir),
    {
        let user = user_data_dir();
        let ghost user_view = match &user {
            Some(d) => Some(d@),
            None => None,
        };
        let builder = Self::for_user_data_dir(user);
        assert(builder.data_dir_view() == data_dir_for(user_view));
        builder
    }
}

impl<K> CyborgOracleFeederBuilder<K> {
    /// The state shared by the feeder's cycles.
    pub closed spec fn shared_state_view(&self) -> Option<Seq<(OracleKeyView, OracleValue)>> {
        self.shared_state.data_view()
    }

    /// The builder's key, or its marker when it has none.
    pub closed spec fn key_view(&self) -> K {
        self.keypair
    }

    /// The builder's data directory.
    pub closed spec fn data_dir_view(&self) -> Seq<u8> {
        self.data_dir@
    }

    /// Gives the builder the key that the secret URI `seed` names; the rest of
    /// the builder is kept. A seed from which no key can be derived is refused.
    pub fn keypair(self, seed: &str) -> (r: Result<CyborgOracleFeederBuilder<AccountKeypair>, Error>)
        ensures
            r is Ok <==> seed_public_key(seed@) is Some,
            r matches Ok(b) ==> Some(b.key_view().0.public_key_view()) == seed_public_key(seed@),
            r matches Ok(b) ==> b.key_view().0.derived_from() == seed@,
            r matches Ok(b) ==> b.shared_state_view() == self.shared_state_view(),
            r matches Ok(b) ==> b.data_dir_view() == self.data_dir_view(),
            !secret_uri_accepts(seed@) ==> (r matches Err(Error::Custom(m))
                && m@ == "Invalid secret phrase format"@),
    {
        self.with_keypair(keypair_from_seed(seed))
    }

    /// Gives the builder the outcome of a key derivation: a derived key
    /// replaces the builder's key and the rest of the builder is kept; a
    /// failed derivation is handed back as it is.
    pub fn with_keypair(self, derived: Result<SigningKey, Error>) -> (r: Result<
        CyborgOracleFeederBuilder<AccountKeypair>,
        Error,
    >)
        ensures
            r is Ok <==> derived is Ok,
            r matches Ok(b) ==> (b.key_view() == AccountKeypair(derived->Ok_0)
                && b.shared_state_view() == self.shared_state_view()
                && b.data_dir_view() == self.data_dir_view()),
            derived is Err ==> r == Err::<CyborgOracleFeederBuilder<AccountKeypair>, Error>(
                derived->Err_0,
            ),
    {
        match derived {
            Ok(keypair) => Ok(
                CyborgOracleFeederBuilder {
                    keypair: AccountKeypair(keypair),
                    shared_state: self.shared_state,
                    data_dir: self.data_dir,
                },
            ),
            Err(e) => Err(e),
        }
    }
}

impl CyborgOracleFeederBuilder<AccountKeypair> {
    /// Hands out what the feeder is built from: its key, the shared state and
    /// the data directory.
    pub fn into_parts(self) -> (parts: (SigningKey, SharedState, Vec<u8>))
        ensures
            parts.0 == self.key_view().0,
            parts.1.data_view() == self.shared_state_view(),
            parts.2@ == self.data_dir_view(),
    {
        (self.keypair.0, self.shared_state, self.data_dir)
    }
}

} // verus!

//! Where the secret of a key comes from.

use vstd::prelude::*;

use std::sync::Arc;

use crate::derivation::{
    deposit_path, leaf_path, signing_path, static_deposit_path, DerivationPath,
};
use crate::error::{SignerError, SignerErrorView};
use crate::frost::{FrostDerivation, FrostDerivationView};
use crate::keys::PublicKey;
use crate::model::{copy_bytes, view_option, view_result};
use crate::tree::TreeNodeId;

verus! {

/// A secret that the low-level signer can find: one derived from the account master, or one that
/// it encrypted before.
#[derive(Debug, PartialEq, Eq)]
pub enum SecretSource {
    Derived(DerivationPath),
    Encrypted(Vec<u8>),
}

/// The view of a `SecretSource`.
pub enum SecretSourceView {
    Derived(Seq<u32>),
    Encrypted(Seq<u8>),
}

impl View for SecretSource {
    type V = SecretSourceView;

    open spec fn view(&self) -> SecretSourceView {
        match self {
            SecretSource::Derived(path) => SecretSourceView::Derived(path@),
            SecretSource::Encrypted(ciphertext) => SecretSourceView::Encrypted(ciphertext@),
        }
    }
}

impl Clone for SecretSource {
    fn clone(&self) -> (copy: Self)
        ensures
            copy@ == self@,
    {
        match self {
            SecretSource::Derived(path) => SecretSource::Derived(path.clone()),
            SecretSource::Encrypted(ciphertext) => SecretSource::Encrypted(copy_bytes(ciphertext)),
        }
    }
}

/// Asks the low-level signer for a secret minus another.
#[derive(Debug, PartialEq, Eq)]
pub struct SubtractSecretsRequest {
    pub from: SecretSource,
    pub subtracted: SecretSource,
}

/// Asks the low-level signer for a secret encrypted for the holder of a key.
#[derive(Debug, PartialEq, Eq)]
pub struct EncryptSecretRequest {
    pub secret: SecretSource,
    pub receiver: PublicKey,
}

/// The ciphertext of a secret, which only an encrypted one has.
pub open spec fn ciphertext_of(source: SecretSourceView) -> Result<Seq<u8>, SignerErrorView> {
    match source {
        SecretSourceView::Encrypted(ciphertext) => Ok(ciphertext),
        SecretSourceView::Derived(_) => Err(
            SignerErrorView::Generic("split key must be stored as an encrypted secret"@),
        ),
    }
}

/// The ciphertext of a secret. A derived one has none to store.
pub fn encrypted_bytes(source: &SecretSource) -> (result: Result<Vec<u8>, SignerError>)
    ensures
        view_result(result) == ciphertext_of(source@),
        match source {
            SecretSource::Encrypted(ciphertext) => result matches Ok(bytes) && bytes@
                == ciphertext@,
            SecretSource::Derived(_) => result matches Err(error) && error@
                == SignerErrorView::Generic("split key must be stored as an encrypted secret"@),
        },
{
    match source {
        SecretSource::Encrypted(ciphertext) => Ok(copy_bytes(ciphertext)),
        SecretSource::Derived(_) => Err(
            SignerError::Generic("split key must be stored as an encrypted secret".to_string()),
        ),
    }
}

/// What a key store answers, as a view: the stored value, if any, or its error.
pub open spec fn stored_view(stored: Result<Option<Vec<u8>>, String>) -> Result<
    Option<Seq<u8>>,
    Seq<char>,
> {
    match stored {
        Ok(value) => Ok(view_option(value)),
        Err(message) => Err(message@),
    }
}

/// The secret of a leaf, given what the key store holds for it: a stored key replaces the derived
/// one.
pub open spec fn leaf_secret(
    leaf_id: Seq<char>,
    stored: Result<Option<Seq<u8>>, Seq<char>>,
) -> Result<SecretSourceView, SignerErrorView> {
    match stored {
        Err(message) => Err(SignerErrorView::Generic(message)),
        Ok(Some(ciphertext)) => Ok(SecretSourceView::Encrypted(ciphertext)),
        Ok(None) => Ok(SecretSourceView::Derived(leaf_path(leaf_id))),
    }
}

/// The secret of a key, where no key store is asked.
pub open spec fn derived_secret(derivation: FrostDerivationView) -> Result<
    SecretSourceView,
    SignerErrorView,
> {
    match derivation {
        FrostDerivationView::SigningLeaf { leaf_id } => leaf_secret(leaf_id, Ok(None)),
        FrostDerivationView::StaticDeposit { index } => match deposit_path(index) {
            Ok(path) => Ok(SecretSourceView::Derived(path)),
            Err(error) => Err(error),
        },
        FrostDerivationView::HtlcPreimage => Err(
            SignerErrorView::Generic(
                "HtlcPreimage FROST derivation not yet supported by the default adapter"@,
            ),
        ),
        FrostDerivationView::Identity => Err(
            SignerErrorView::Generic("Identity FROST derivation not supported"@),
        ),
    }
}

/// The wallet's signer on top of a low-level signer `S`, with a store `K` for leaf keys that are
/// not derived, if there is one.
pub struct SparkSignerAdapter<S, K> {
    pub signer: Arc<S>,
    pub leaf_key_store: Option<Arc<K>>,
}

/// The secret of a key: known, or to be looked up.
#[derive(Debug, PartialEq, Eq)]
pub enum SecretStep {
    Known(SecretSource),
    StoredKeyNeeded(StoredKeyNeeded),
}

/// A leaf whose stored key is needed.
#[derive(Debug, PartialEq, Eq)]
pub struct StoredKeyNeeded {
    pub leaf_id: TreeNodeId,
}

impl StoredKeyNeeded {
    /// The secret of the leaf, given what the key store holds for it.
    pub fn stored_key_found(self, stored: Result<Option<Vec<u8>>, String>) -> (result: Result<
        SecretSource,
        SignerError,
    >)
        ensures
            view_result(result) == leaf_secret(self.leaf_id@, stored_view(stored)),
            match stored {
                Err(message) => result matches Err(error) && error@ == SignerErrorView::Generic(
                    message@,
                ),
                Ok(Some(ciphertext)) => result matches Ok(SecretSource::Encrypted(bytes)) && bytes@
                    == ciphertext@,
                Ok(None) => result matches Ok(SecretSource::Derived(path)) && path@ == leaf_path(
                    self.leaf_id@,
                ),
            },
    {
        match stored {
            Err(message) => Err(SignerError::Generic(message)),
            Ok(Some(ciphertext)) => Ok(SecretSource::Encrypted(ciphertext)),
            Ok(None) => match signing_path(&self.leaf_id) {
                Ok(path) => Ok(SecretSource::Derived(path)),
                Err(error) => Err(error),
            },
        }
    }
}

impl<S, K> SparkSignerAdapter<S, K> {
    /// A signer without a key store.
    pub fn new(signer: Arc<S>) -> (adapter: SparkSignerAdapter<S, K>)
        ensures
            adapter.signer == signer,
            adapter.leaf_key_store is None,
    {
        SparkSignerAdapter { signer, leaf_key_store: None }
    }

    /// The same signer with a key store.
    pub fn with_leaf_key_override_store(self, store: Arc<K>) -> (adapter: SparkSignerAdapter<S, K>)
        ensures
            adapter.signer == self.signer,
            adapter.leaf_key_store == Some(store),
    {
        SparkSignerAdapter { signer: self.signer, leaf_key_store: Some(store) }
    }

    /// The secret of a key. The key store, if there is one, is asked about leaves, and about
    /// nothing else.
    pub fn secret_source_for(&self, derivation: &FrostDerivation) -> (result: Result<
        SecretStep,
        SignerError,
    >)
        ensures
            match result {
                Ok(SecretStep::StoredKeyNeeded(asked)) => {
                    &&& self.leaf_key_store is Some
                    &&& derivation@ == (FrostDerivationView::SigningLeaf {
                        leaf_id: asked.leaf_id@,
                    })
                },
                Ok(SecretStep::Known(source)) => {
                    &&& self.leaf_key_store is None || !(derivation@ is SigningLeaf)
                    &&& derived_secret(derivation@) == Ok::<SecretSourceView, SignerErrorView>(
                        source@,
                    )
                },
                Err(error) => derived_secret(derivation@) == Err::<
                    SecretSourceView,
                    SignerErrorView,
                >(error@),
            },
            match derivation {
                FrostDerivation::SigningLeaf { leaf_id } => if self.leaf_key_store is Some {
                    result matches Ok(SecretStep::StoredKeyNeeded(asked)) && asked.leaf_id@
                        == leaf_id@
                } else {
                    result matches Ok(SecretStep::Known(SecretSource::Derived(path))) && path@
                        == leaf_path(leaf_id@)
                },
                FrostDerivation::StaticDeposit { index } => if *index < 0x8000_0000 {
                    result matches Ok(SecretStep::Known(SecretSource::Derived(path)))
                        && path.children@ == seq![0x8000_0003u32, (0x8000_0000 + *index) as u32]
                } else {
                    result is Err
                },
                FrostDerivation::HtlcPreimage => result matches Err(error) && error@
                    == SignerErrorView::Generic(
                    "HtlcPreimage FROST derivation not yet supported by the default adapter"@,
                ),
                FrostDerivation::Identity => result matches Err(error) && error@
                    == SignerErrorView::Generic("Identity FROST derivation not supported"@),
            },
    {
        match derivation {
            FrostDerivation::SigningLeaf { leaf_id } => {
                let asked = StoredKeyNeeded { leaf_id: leaf_id.clone() };
                if self.leaf_key_store.is_some() {
                    return Ok(SecretStep::StoredKeyNeeded(asked));
                }
                match asked.stored_key_found(Ok(None)) {
                    Ok(source) => Ok(SecretStep::Known(source)),
                    Err(error) => Err(error),
                }
            },
            FrostDerivation::StaticDeposit { index } => match static_deposit_path(*index) {
                Ok(path) => Ok(SecretStep::Known(SecretSource::Derived(path))),
                Err(error) => Err(error),
            },
            FrostDerivation::HtlcPreimage => Err(
                SignerError::Generic(
                    "HtlcPreimage FROST derivation not yet supported by the default adapter".to_string(),
                ),
            ),
            FrostDerivation::Identity => Err(
                SignerError::Generic("Identity FROST derivation not supported".to_string()),
            ),
        }
    }
}

/// A stored key replaces the derived one, and only a stored key does: a leaf with a stored
/// ciphertext has that secret, whatever its id, and one without has the secret at its own path.
/// An error of the store is an error of the secret, never a derived key.
pub proof fn stored_keys_replace_derived_ones(
    leaf_id: Seq<char>,
    other_id: Seq<char>,
    ciphertext: Seq<u8>,
    message: Seq<char>,
)
    ensures
        leaf_secret(leaf_id, Ok(Some(ciphertext))) == leaf_secret(other_id, Ok(Some(ciphertext))),
        leaf_secret(leaf_id, Ok(Some(ciphertext))) matches Ok(secret) && ciphertext_of(secret)
            == Ok::<Seq<u8>, SignerErrorView>(ciphertext),
        leaf_secret(leaf_id, Ok(None)) matches Ok(SecretSourceView::Derived(path)) && path
            == leaf_path(leaf_id),
        derived_secret(FrostDerivationView::SigningLeaf { leaf_id }) == leaf_secret(
            leaf_id,
            Ok(None),
        ),
        leaf_secret(leaf_id, Err(message)) is Err,
{
}

} // verus!

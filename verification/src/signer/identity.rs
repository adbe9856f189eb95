//! What the wallet signs under its identity key and under the keys of its leaves.

use vstd::prelude::*;

use crate::derivation::{
    deposit_path, hardened_path, identity_path, leaf_path, static_deposit_path, DerivationPath,
    IDENTITY_PURPOSE,
};
use crate::error::{SignerError, SignerErrorView};
use crate::frost::FrostDerivation;
use crate::model::view_result;
use crate::signer::secret::{SecretSource, SecretSourceView, SecretStep, SparkSignerAdapter};
use crate::tree::TreeNodeId;

verus! {

/// An ECDSA signature, in its compact form.
#[derive(Debug, PartialEq, Eq, Clone, Copy)]
pub struct EcdsaSignature {
    pub compact: [u8; 64],
}

impl View for EcdsaSignature {
    type V = Seq<u8>;

    open spec fn view(&self) -> Seq<u8> {
        self.compact@
    }
}

impl EcdsaSignature {
    /// The compact form.
    pub fn serialize_compact(&self) -> (bytes: Vec<u8>)
        ensures
            bytes@ == self@,
    {
        let bytes = vstd::slice::slice_to_vec(self.compact.as_slice());
        assert(bytes@ =~= self.compact@);
        bytes
    }
}

/// A Schnorr signature.
#[derive(Debug, PartialEq, Eq, Clone, Copy)]
pub struct SchnorrSignature {
    pub bytes: [u8; 64],
}

/// Asks the low-level signer for an ECDSA signature of a message, under the key at a path.
#[derive(Debug, PartialEq, Eq)]
pub struct EcdsaRequest {
    pub path: DerivationPath,
    pub message: Vec<u8>,
}

/// The view of an `EcdsaRequest`, and of a `SchnorrRequest`.
pub struct SigningView {
    pub path: Seq<u32>,
    pub message: Seq<u8>,
}

impl View for EcdsaRequest {
    type V = SigningView;

    open spec fn view(&self) -> SigningView {
        SigningView { path: self.path@, message: self.message@ }
    }
}

/// Asks the low-level signer for a Schnorr signature of a hash, under the key at a path.
#[derive(Debug, PartialEq, Eq)]
pub struct SchnorrRequest {
    pub path: DerivationPath,
    pub hash: Vec<u8>,
}

impl View for SchnorrRequest {
    type V = SigningView;

    open spec fn view(&self) -> SigningView {
        SigningView { path: self.path@, message: self.hash@ }
    }
}

/// Asks the low-level signer for a Schnorr signature of a hash, under a secret that is tweaked
/// first, with a tweak that may be left to the signer.
#[derive(Debug, PartialEq, Eq)]
pub struct TweakedSchnorrRequest {
    pub secret: SecretSource,
    pub hash: Vec<u8>,
    pub tweak: Option<Vec<u8>>,
}

/// A message or hash that the wallet signs under its identity key.
pub open spec fn under_identity(message: Seq<u8>) -> SigningView {
    SigningView { path: hardened_path(IDENTITY_PURPOSE), message }
}

/// The question for an ECDSA signature under the identity key.
pub fn ecdsa_under_identity(message: Vec<u8>) -> (result: Result<EcdsaRequest, SignerError>)
    ensures
        view_result(result) == Ok::<SigningView, SignerErrorView>(under_identity(message@)),
        result matches Ok(asked) && asked.path.children@ == seq![0x8000_0000u32] && asked.message@
            == message@,
{
    match identity_path() {
        Ok(path) => Ok(EcdsaRequest { path, message }),
        Err(error) => Err(error),
    }
}

/// The question for a Schnorr signature under the identity key.
pub fn schnorr_under_identity(hash: Vec<u8>) -> (result: Result<SchnorrRequest, SignerError>)
    ensures
        view_result(result) == Ok::<SigningView, SignerErrorView>(under_identity(hash@)),
        result matches Ok(asked) && asked.path.children@ == seq![0x8000_0000u32] && asked.hash@
            == hash@,
{
    match identity_path() {
        Ok(path) => Ok(SchnorrRequest { path, hash }),
        Err(error) => Err(error),
    }
}

/// Asks for a signature of an invoice.
#[derive(Debug, PartialEq, Eq)]
pub struct SignSparkInvoiceRequest {
    pub invoice_hash: Vec<u8>,
}

/// The signature of an invoice.
#[derive(Debug, PartialEq, Eq)]
pub struct SignedSparkInvoice {
    pub signature: SchnorrSignature,
}

/// Asks for a signature of a token transaction.
#[derive(Debug, PartialEq, Eq)]
pub struct PrepareTokenTransactionRequest {
    pub digest: Vec<u8>,
}

/// The signature of a token transaction.
#[derive(Debug, PartialEq, Eq)]
pub struct PreparedTokenTransaction {
    pub signature: SchnorrSignature,
}

/// The spend of a leaf's refund, which needs the secret of the leaf.
pub struct RefundSpend {
    pub leaf_id: TreeNodeId,
    pub sighash: Vec<u8>,
}

impl RefundSpend {
    /// The key whose secret is needed.
    pub fn derivation(&self) -> (derivation: FrostDerivation)
        ensures
            derivation == (FrostDerivation::SigningLeaf { leaf_id: self.leaf_id }),
    {
        FrostDerivation::SigningLeaf { leaf_id: self.leaf_id.clone() }
    }

    /// Takes the secret, and asks for the signature without a tweak of the wallet's own.
    pub fn secret_found(self, secret: SecretSource) -> (request: TweakedSchnorrRequest)
        ensures
            request.secret == secret,
            request.hash == self.sighash,
            request.tweak is None,
    {
        TweakedSchnorrRequest { secret, hash: self.sighash, tweak: None }
    }
}

impl<S, K> SparkSignerAdapter<S, K> {
    /// The path of the identity key, whose public key is asked for.
    pub fn get_identity_public_key(&self) -> (path: Result<DerivationPath, SignerError>)
        ensures
            view_result(path) == Ok::<Seq<u32>, SignerErrorView>(hardened_path(IDENTITY_PURPOSE)),
            path matches Ok(found) && found.children@ == seq![0x8000_0000u32],
    {
        identity_path()
    }

    /// The secret of a leaf, whose public key is asked for.
    pub fn get_public_key_for_leaf(&self, leaf_id: &TreeNodeId) -> (result: Result<
        SecretStep,
        SignerError,
    >)
        ensures
            match result {
                Ok(SecretStep::StoredKeyNeeded(asked)) => self.leaf_key_store is Some
                    && asked.leaf_id@ == leaf_id@,
                Ok(SecretStep::Known(source)) => {
                    &&& self.leaf_key_store is None
                    &&& source@ == SecretSourceView::Derived(leaf_path(leaf_id@))
                },
                Err(_) => false,
            },
    {
        self.secret_source_for(&FrostDerivation::SigningLeaf { leaf_id: leaf_id.clone() })
    }

    /// The path of a static deposit key, whose public key is asked for.
    pub fn get_static_deposit_public_key(&self, index: u32) -> (path: Result<
        DerivationPath,
        SignerError,
    >)
        ensures
            view_result(path) == deposit_path(index),
            path is Ok <==> index < 0x8000_0000,
            path matches Ok(found) ==> found.children@ == seq![
                0x8000_0003u32,
                (0x8000_0000 + index) as u32,
            ],
    {
        static_deposit_path(index)
    }

    /// Starts to sign the spend of a leaf's refund.
    pub fn sign_leaf_refund_spend(&self, leaf_id: &TreeNodeId, sighash: &[u8]) -> (spend:
        RefundSpend)
        ensures
            spend.leaf_id@ == leaf_id@,
            spend.sighash@ == sighash@,
    {
        RefundSpend { leaf_id: leaf_id.clone(), sighash: vstd::slice::slice_to_vec(sighash) }
    }

    /// The signature with which the wallet answers a challenge: under its identity key.
    pub fn sign_authentication_challenge(&self, challenge: &[u8]) -> (result: Result<
        EcdsaRequest,
        SignerError,
    >)
        ensures
            view_result(result) == Ok::<SigningView, SignerErrorView>(under_identity(challenge@)),
            result matches Ok(asked) && asked.path.children@ == seq![0x8000_0000u32]
                && asked.message@ == challenge@,
    {
        ecdsa_under_identity(vstd::slice::slice_to_vec(challenge))
    }

    /// The signature of a message: under the identity key.
    pub fn sign_message(&self, message: &[u8]) -> (result: Result<EcdsaRequest, SignerError>)
        ensures
            view_result(result) == Ok::<SigningView, SignerErrorView>(under_identity(message@)),
            result matches Ok(asked) && asked.path.children@ == seq![0x8000_0000u32]
                && asked.message@ == message@,
    {
        ecdsa_under_identity(vstd::slice::slice_to_vec(message))
    }

    /// The signature of an invoice: under the identity key.
    pub fn sign_spark_invoice(&self, request: SignSparkInvoiceRequest) -> (result: Result<
        SchnorrRequest,
        SignerError,
    >)
        ensures
            view_result(result) == Ok::<SigningView, SignerErrorView>(
                under_identity(request.invoice_hash@),
            ),
            result matches Ok(asked) && asked.path.children@ == seq![0x8000_0000u32] && asked.hash@
                == request.invoice_hash@,
    {
        schnorr_under_identity(request.invoice_hash)
    }

    /// The signature of a token transaction: under the identity key.
    pub fn prepare_token_transaction(&self, request: PrepareTokenTransactionRequest) -> (result:
        Result<SchnorrRequest, SignerError>)
        ensures
            view_result(result) == Ok::<SigningView, SignerErrorView>(
                under_identity(request.digest@),
            ),
            result matches Ok(asked) && asked.path.children@ == seq![0x8000_0000u32] && asked.hash@
                == request.digest@,
    {
        schnorr_under_identity(request.digest)
    }
}

/// Whatever the wallet signs under its identity key, it signs the message itself, whole, under the
/// one hardened key whose purpose is identity. So different messages are different questions.
pub proof fn identity_signs_the_message_itself(message: Seq<u8>, other: Seq<u8>)
    ensures
        under_identity(message).message == message,
        under_identity(message).path == seq![0x8000_0000u32],
        under_identity(message) == under_identity(other) <==> message == other,
{
    assert(under_identity(message).path =~= seq![0x8000_0000u32]);
}

} // verus!

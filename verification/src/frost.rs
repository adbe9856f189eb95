//! Values of the threshold signing protocol: nonces, commitments, jobs and shares.

use vstd::prelude::*;

use crate::by_operator::{ByOperator, OfOperator};
use crate::error::{SignerError, SignerErrorView};
use crate::keys::{Identifier, PublicKey};
use crate::model::{copy_bytes, view_option, view_result};
use crate::tree::TreeNodeId;

verus! {

/// Nonce commitments prepared ahead of signing, in the form in which they are stored: the two
/// commitments, and the nonces behind them, encrypted by the signer.
#[derive(Debug, PartialEq, Eq)]
pub struct PreparedFrostNonce {
    pub hiding_commitment: Vec<u8>,
    pub binding_commitment: Vec<u8>,
    pub nonces_ciphertext: Vec<u8>,
}

/// The view of a `PreparedFrostNonce`.
pub struct PreparedFrostNonceView {
    pub hiding_commitment: Seq<u8>,
    pub binding_commitment: Seq<u8>,
    pub nonces_ciphertext: Seq<u8>,
}

impl View for PreparedFrostNonce {
    type V = PreparedFrostNonceView;

    open spec fn view(&self) -> PreparedFrostNonceView {
        PreparedFrostNonceView {
            hiding_commitment: self.hiding_commitment@,
            binding_commitment: self.binding_commitment@,
            nonces_ciphertext: self.nonces_ciphertext@,
        }
    }
}

impl Clone for PreparedFrostNonce {
    fn clone(&self) -> (copy: Self)
        ensures
            copy@ == self@,
    {
        PreparedFrostNonce {
            hiding_commitment: copy_bytes(&self.hiding_commitment),
            binding_commitment: copy_bytes(&self.binding_commitment),
            nonces_ciphertext: copy_bytes(&self.nonces_ciphertext),
        }
    }
}

/// A pair of commitments to nonces, each the encoding of a point.
#[derive(Debug, PartialEq, Eq)]
pub struct SigningCommitments {
    pub hiding: Vec<u8>,
    pub binding: Vec<u8>,
}

/// The view of a `SigningCommitments`.
pub struct SigningCommitmentsView {
    pub hiding: Seq<u8>,
    pub binding: Seq<u8>,
}

impl View for SigningCommitments {
    type V = SigningCommitmentsView;

    open spec fn view(&self) -> SigningCommitmentsView {
        SigningCommitmentsView { hiding: self.hiding@, binding: self.binding@ }
    }
}

impl Clone for SigningCommitments {
    fn clone(&self) -> (copy: Self)
        ensures
            copy@ == self@,
    {
        SigningCommitments { hiding: copy_bytes(&self.hiding), binding: copy_bytes(&self.binding) }
    }
}

/// Commitments with the nonces behind them, encrypted by the signer.
#[derive(Debug, PartialEq, Eq)]
pub struct FrostSigningCommitmentsWithNonces {
    pub commitments: SigningCommitments,
    pub nonces_ciphertext: Vec<u8>,
}

/// The view of a `FrostSigningCommitmentsWithNonces`.
pub struct FrostSigningCommitmentsWithNoncesView {
    pub commitments: SigningCommitmentsView,
    pub nonces_ciphertext: Seq<u8>,
}

impl View for FrostSigningCommitmentsWithNonces {
    type V = FrostSigningCommitmentsWithNoncesView;

    open spec fn view(&self) -> FrostSigningCommitmentsWithNoncesView {
        FrostSigningCommitmentsWithNoncesView {
            commitments: self.commitments@,
            nonces_ciphertext: self.nonces_ciphertext@,
        }
    }
}

impl Clone for FrostSigningCommitmentsWithNonces {
    fn clone(&self) -> (copy: Self)
        ensures
            copy@ == self@,
    {
        FrostSigningCommitmentsWithNonces {
            commitments: self.commitments.clone(),
            nonces_ciphertext: copy_bytes(&self.nonces_ciphertext),
        }
    }
}

/// The commitments of one operator.
#[derive(Debug, PartialEq, Eq)]
pub struct OperatorCommitments {
    pub identifier: Identifier,
    pub commitments: SigningCommitments,
}

/// The view of an `OperatorCommitments`.
pub struct OperatorCommitmentsView {
    pub identifier: Seq<u8>,
    pub commitments: SigningCommitmentsView,
}

impl View for OperatorCommitments {
    type V = OperatorCommitmentsView;

    open spec fn view(&self) -> OperatorCommitmentsView {
        OperatorCommitmentsView { identifier: self.identifier@, commitments: self.commitments@ }
    }
}

impl Clone for OperatorCommitments {
    fn clone(&self) -> (copy: Self)
        ensures
            copy@ == self@,
    {
        OperatorCommitments { identifier: self.identifier, commitments: self.commitments.clone() }
    }
}

impl OfOperator for OperatorCommitments {
    open spec fn operator(item: OperatorCommitmentsView) -> Seq<u8> {
        item.identifier
    }

    fn identifier(&self) -> (identifier: Identifier) {
        self.identifier
    }

    fn copy(&self) -> (copy: Self) {
        self.clone()
    }
}

/// Which key of the wallet signs.
#[derive(Debug, PartialEq, Eq)]
pub enum FrostDerivation {
    /// The key of a leaf.
    SigningLeaf { leaf_id: TreeNodeId },
    /// The static deposit key of an index.
    StaticDeposit { index: u32 },
    /// The key behind payment preimages.
    HtlcPreimage,
    /// The identity key.
    Identity,
}

/// The view of a `FrostDerivation`.
pub enum FrostDerivationView {
    SigningLeaf { leaf_id: Seq<char> },
    StaticDeposit { index: u32 },
    HtlcPreimage,
    Identity,
}

impl View for FrostDerivation {
    type V = FrostDerivationView;

    open spec fn view(&self) -> FrostDerivationView {
        match self {
            FrostDerivation::SigningLeaf { leaf_id } => FrostDerivationView::SigningLeaf {
                leaf_id: leaf_id@,
            },
            FrostDerivation::StaticDeposit { index } => FrostDerivationView::StaticDeposit {
                index: *index,
            },
            FrostDerivation::HtlcPreimage => FrostDerivationView::HtlcPreimage,
            FrostDerivation::Identity => FrostDerivationView::Identity,
        }
    }
}

impl Clone for FrostDerivation {
    fn clone(&self) -> (copy: Self)
        ensures
            copy@ == self@,
    {
        match self {
            FrostDerivation::SigningLeaf { leaf_id } => FrostDerivation::SigningLeaf {
                leaf_id: leaf_id.clone(),
            },
            FrostDerivation::StaticDeposit { index } => FrostDerivation::StaticDeposit {
                index: *index,
            },
            FrostDerivation::HtlcPreimage => FrostDerivation::HtlcPreimage,
            FrostDerivation::Identity => FrostDerivation::Identity,
        }
    }
}

/// One message to sign together with the operators.
#[derive(Debug, PartialEq, Eq)]
pub struct FrostJob {
    pub derivation: FrostDerivation,
    pub sighash: [u8; 32],
    pub verifying_key: PublicKey,
    pub operator_commitments: ByOperator<OperatorCommitments>,
    pub adaptor_public_key: Option<PublicKey>,
}

/// The view of a `FrostJob`.
pub struct FrostJobView {
    pub derivation: FrostDerivationView,
    pub sighash: Seq<u8>,
    pub verifying_key: Seq<u8>,
    pub operator_commitments: Seq<OperatorCommitmentsView>,
    pub adaptor_public_key: Option<Seq<u8>>,
}

impl View for FrostJob {
    type V = FrostJobView;

    open spec fn view(&self) -> FrostJobView {
        FrostJobView {
            derivation: self.derivation@,
            sighash: self.sighash@,
            verifying_key: self.verifying_key@,
            operator_commitments: self.operator_commitments@,
            adaptor_public_key: view_option(self.adaptor_public_key),
        }
    }
}

impl Clone for FrostJob {
    fn clone(&self) -> (copy: Self)
        ensures
            copy@ == self@,
    {
        FrostJob {
            derivation: self.derivation.clone(),
            sighash: self.sighash,
            verifying_key: self.verifying_key,
            operator_commitments: self.operator_commitments.clone(),
            adaptor_public_key: self.adaptor_public_key,
        }
    }
}

/// The wallet's share of a signature, with the commitments that it was made for.
#[derive(Debug, PartialEq, Eq)]
pub struct FrostShareResult {
    pub commitment: FrostSigningCommitmentsWithNonces,
    pub signature_share: Vec<u8>,
}

/// The view of a `FrostShareResult`.
pub struct FrostShareResultView {
    pub commitment: FrostSigningCommitmentsWithNoncesView,
    pub signature_share: Seq<u8>,
}

impl View for FrostShareResult {
    type V = FrostShareResultView;

    open spec fn view(&self) -> FrostShareResultView {
        FrostShareResultView {
            commitment: self.commitment@,
            signature_share: self.signature_share@,
        }
    }
}

/// The signature share of one operator.
#[derive(Debug, PartialEq, Eq)]
pub struct OperatorShare {
    pub identifier: Identifier,
    pub share: Vec<u8>,
}

/// The view of an `OperatorShare`.
pub struct OperatorShareView {
    pub identifier: Seq<u8>,
    pub share: Seq<u8>,
}

impl View for OperatorShare {
    type V = OperatorShareView;

    open spec fn view(&self) -> OperatorShareView {
        OperatorShareView { identifier: self.identifier@, share: self.share@ }
    }
}

impl Clone for OperatorShare {
    fn clone(&self) -> (copy: Self)
        ensures
            copy@ == self@,
    {
        OperatorShare { identifier: self.identifier, share: copy_bytes(&self.share) }
    }
}

impl OfOperator for OperatorShare {
    open spec fn operator(item: OperatorShareView) -> Seq<u8> {
        item.identifier
    }

    fn identifier(&self) -> (identifier: Identifier) {
        self.identifier
    }

    fn copy(&self) -> (copy: Self) {
        self.clone()
    }
}

/// The key with which one operator signs.
#[derive(Debug, PartialEq, Eq, Clone, Copy)]
pub struct OperatorKey {
    pub identifier: Identifier,
    pub public_key: PublicKey,
}

/// The view of an `OperatorKey`.
pub struct OperatorKeyView {
    pub identifier: Seq<u8>,
    pub public_key: Seq<u8>,
}

impl View for OperatorKey {
    type V = OperatorKeyView;

    open spec fn view(&self) -> OperatorKeyView {
        OperatorKeyView { identifier: self.identifier@, public_key: self.public_key@ }
    }
}

impl OfOperator for OperatorKey {
    open spec fn operator(item: OperatorKeyView) -> Seq<u8> {
        item.identifier
    }

    fn identifier(&self) -> (identifier: Identifier) {
        self.identifier
    }

    fn copy(&self) -> (copy: Self) {
        *self
    }
}

/// What the operators contributed to one signature, read from their answer.
#[derive(Debug, PartialEq, Eq)]
pub struct SigningResult {
    pub signing_commitments: ByOperator<OperatorCommitments>,
    pub signature_shares: ByOperator<OperatorShare>,
    pub public_keys: ByOperator<OperatorKey>,
}

/// The view of a `SigningResult`.
pub struct SigningResultView {
    pub signing_commitments: Seq<OperatorCommitmentsView>,
    pub signature_shares: Seq<OperatorShareView>,
    pub public_keys: Seq<OperatorKeyView>,
}

impl View for SigningResult {
    type V = SigningResultView;

    open spec fn view(&self) -> SigningResultView {
        SigningResultView {
            signing_commitments: self.signing_commitments@,
            signature_shares: self.signature_shares@,
            public_keys: self.public_keys@,
        }
    }
}

impl Clone for SigningResult {
    fn clone(&self) -> (copy: Self)
        ensures
            copy@ == self@,
    {
        SigningResult {
            signing_commitments: self.signing_commitments.clone(),
            signature_shares: self.signature_shares.clone(),
            public_keys: self.public_keys.clone(),
        }
    }
}

/// All that goes into one aggregated signature.
#[derive(Debug, PartialEq, Eq)]
pub struct AggregateFrostRequest {
    pub message: [u8; 32],
    pub statechain_signatures: ByOperator<OperatorShare>,
    pub statechain_public_keys: ByOperator<OperatorKey>,
    pub verifying_key: PublicKey,
    pub statechain_commitments: ByOperator<OperatorCommitments>,
    pub self_commitment: SigningCommitments,
    pub public_key: PublicKey,
    pub self_signature: Vec<u8>,
    pub adaptor_public_key: Option<PublicKey>,
}

/// The view of an `AggregateFrostRequest`.
pub struct AggregateFrostRequestView {
    pub message: Seq<u8>,
    pub statechain_signatures: Seq<OperatorShareView>,
    pub statechain_public_keys: Seq<OperatorKeyView>,
    pub verifying_key: Seq<u8>,
    pub statechain_commitments: Seq<OperatorCommitmentsView>,
    pub self_commitment: SigningCommitmentsView,
    pub public_key: Seq<u8>,
    pub self_signature: Seq<u8>,
    pub adaptor_public_key: Option<Seq<u8>>,
}

impl View for AggregateFrostRequest {
    type V = AggregateFrostRequestView;

    open spec fn view(&self) -> AggregateFrostRequestView {
        AggregateFrostRequestView {
            message: self.message@,
            statechain_signatures: self.statechain_signatures@,
            statechain_public_keys: self.statechain_public_keys@,
            verifying_key: self.verifying_key@,
            statechain_commitments: self.statechain_commitments@,
            self_commitment: self.self_commitment@,
            public_key: self.public_key@,
            self_signature: self.self_signature@,
            adaptor_public_key: view_option(self.adaptor_public_key),
        }
    }
}

/// The canonical encoding of the nonce commitment that a byte string encodes, or the message of
/// the decoding error.
pub uninterp spec fn commitment_encoding(bytes: Seq<u8>) -> Result<Seq<u8>, Seq<char>>;

/// `frost_secp256k1_tr::round1::NonceCommitment::deserialize`, then `serialize` of the commitment
/// that it gives, named by `commitment_encoding`; an error comes as its message. A canonical
/// encoding is its own.
#[verifier::external_body]
fn canonical_commitment(bytes: &[u8]) -> (result: Result<Vec<u8>, String>)
    ensures
        view_result(result) == commitment_encoding(bytes@),
        result matches Ok(encoding) ==> is_canonical_commitment(encoding@),
{
    let commitment = frost_secp256k1_tr::round1::NonceCommitment::deserialize(bytes);
    commitment.and_then(|c| c.serialize()).map_err(|e| e.to_string())
}

/// Whether a byte string is the canonical encoding of a nonce commitment.
pub open spec fn is_canonical_commitment(bytes: Seq<u8>) -> bool {
    commitment_encoding(bytes) == Ok::<Seq<u8>, Seq<char>>(bytes)
}

/// A commitment in its canonical encoding, or the error of one that encodes no point.
pub open spec fn encoded_commitment(bytes: Seq<u8>) -> Result<Seq<u8>, SignerErrorView> {
    match commitment_encoding(bytes) {
        Ok(encoding) => Ok(encoding),
        Err(message) => Err(SignerErrorView::SerializationError(message)),
    }
}

/// The commitments that a stored nonce stands for. The hiding commitment is read first.
pub open spec fn decoded_nonce(nonce: PreparedFrostNonceView) -> Result<
    FrostSigningCommitmentsWithNoncesView,
    SignerErrorView,
> {
    match encoded_commitment(nonce.hiding_commitment) {
        Err(error) => Err(error),
        Ok(hiding) => match encoded_commitment(nonce.binding_commitment) {
            Err(error) => Err(error),
            Ok(binding) => Ok(
                FrostSigningCommitmentsWithNoncesView {
                    commitments: SigningCommitmentsView { hiding, binding },
                    nonces_ciphertext: nonce.nonces_ciphertext,
                },
            ),
        },
    }
}

/// The form in which a nonce is stored. The hiding commitment is written first.
pub open spec fn encoded_nonce(nonce: FrostSigningCommitmentsWithNoncesView) -> Result<
    PreparedFrostNonceView,
    SignerErrorView,
> {
    match encoded_commitment(nonce.commitments.hiding) {
        Err(error) => Err(error),
        Ok(hiding_commitment) => match encoded_commitment(nonce.commitments.binding) {
            Err(error) => Err(error),
            Ok(binding_commitment) => Ok(
                PreparedFrostNonceView {
                    hiding_commitment,
                    binding_commitment,
                    nonces_ciphertext: nonce.nonces_ciphertext,
                },
            ),
        },
    }
}

fn encode_commitment(bytes: &Vec<u8>) -> (result: Result<Vec<u8>, SignerError>)
    ensures
        view_result(result) == encoded_commitment(bytes@),
        result matches Ok(encoding) ==> is_canonical_commitment(encoding@),
{
    match canonical_commitment(bytes.as_slice()) {
        Ok(encoding) => Ok(encoding),
        Err(message) => Err(SignerError::SerializationError(message)),
    }
}

/// Reads a stored nonce.
pub fn decode_prepared_nonce(nonce: PreparedFrostNonce) -> (result: Result<
    FrostSigningCommitmentsWithNonces,
    SignerError,
>)
    ensures
        view_result(result) == decoded_nonce(nonce@),
        result is Ok <==> commitment_encoding(nonce.hiding_commitment@) is Ok
            && commitment_encoding(nonce.binding_commitment@) is Ok,
        result matches Ok(read) ==> {
            &&& commitment_encoding(nonce.hiding_commitment@) == Ok::<Seq<u8>, Seq<char>>(
                read.commitments.hiding@,
            )
            &&& commitment_encoding(nonce.binding_commitment@) == Ok::<Seq<u8>, Seq<char>>(
                read.commitments.binding@,
            )
            &&& read.nonces_ciphertext@ == nonce.nonces_ciphertext@
        },
{
    let hiding = match encode_commitment(&nonce.hiding_commitment) {
        Ok(hiding) => hiding,
        Err(error) => return Err(error),
    };
    let binding = match encode_commitment(&nonce.binding_commitment) {
        Ok(binding) => binding,
        Err(error) => return Err(error),
    };
    Ok(
        FrostSigningCommitmentsWithNonces {
            commitments: SigningCommitments { hiding, binding },
            nonces_ciphertext: nonce.nonces_ciphertext,
        },
    )
}

/// Writes a nonce in the form in which it is stored. Reading it back gives the commitments that
/// were stored, and the same encrypted nonces.
pub fn encode_prepared_nonce(nonce: FrostSigningCommitmentsWithNonces) -> (result: Result<
    PreparedFrostNonce,
    SignerError,
>)
    ensures
        view_result(result) == encoded_nonce(nonce@),
        result matches Ok(stored) ==> decoded_nonce(stored@) == Ok::<
            FrostSigningCommitmentsWithNoncesView,
            SignerErrorView,
        >(
            FrostSigningCommitmentsWithNoncesView {
                commitments: SigningCommitmentsView {
                    hiding: stored@.hiding_commitment,
                    binding: stored@.binding_commitment,
                },
                nonces_ciphertext: nonce@.nonces_ciphertext,
            },
        ),
        result is Ok <==> commitment_encoding(nonce.commitments.hiding@) is Ok
            && commitment_encoding(nonce.commitments.binding@) is Ok,
        result matches Ok(stored) ==> {
            &&& commitment_encoding(nonce.commitments.hiding@) == Ok::<Seq<u8>, Seq<char>>(
                stored.hiding_commitment@,
            )
            &&& commitment_encoding(nonce.commitments.binding@) == Ok::<Seq<u8>, Seq<char>>(
                stored.binding_commitment@,
            )
            &&& stored.nonces_ciphertext@ == nonce.nonces_ciphertext@
        },
{
    let hiding_commitment = match encode_commitment(&nonce.commitments.hiding) {
        Ok(hiding) => hiding,
        Err(error) => return Err(error),
    };
    let binding_commitment = match encode_commitment(&nonce.commitments.binding) {
        Ok(binding) => binding,
        Err(error) => return Err(error),
    };
    Ok(
        PreparedFrostNonce {
            hiding_commitment,
            binding_commitment,
            nonces_ciphertext: nonce.nonces_ciphertext,
        },
    )
}

/// Storing a nonce and reading it back gives the same nonce, and no other nonce is stored in the
/// same form: each commitment stays in its own place, and the encrypted nonces stay as they are.
/// Either way the first error is that of the hiding commitment.
pub proof fn stored_nonces_read_back(
    nonce: FrostSigningCommitmentsWithNoncesView,
    other: FrostSigningCommitmentsWithNoncesView,
)
    requires
        is_canonical_commitment(nonce.commitments.hiding),
        is_canonical_commitment(nonce.commitments.binding),
        is_canonical_commitment(other.commitments.hiding),
        is_canonical_commitment(other.commitments.binding),
    ensures
        encoded_nonce(nonce) is Ok,
        decoded_nonce(encoded_nonce(nonce)->Ok_0) == Ok::<
            FrostSigningCommitmentsWithNoncesView,
            SignerErrorView,
        >(nonce),
        encoded_nonce(nonce) == encoded_nonce(other) <==> nonce == other,
        encoded_nonce(nonce)->Ok_0.hiding_commitment == nonce.commitments.hiding,
        encoded_nonce(nonce)->Ok_0.binding_commitment == nonce.commitments.binding,
        encoded_nonce(nonce)->Ok_0.nonces_ciphertext == nonce.nonces_ciphertext,
{
}

/// A nonce with a commitment that encodes no point is refused, with the error of the hiding
/// commitment where both are bad.
pub proof fn bad_commitments_are_refused(
    nonce: FrostSigningCommitmentsWithNoncesView,
    stored: PreparedFrostNonceView,
)
    ensures
        encoded_nonce(nonce) is Err <==> commitment_encoding(nonce.commitments.hiding) is Err
            || commitment_encoding(nonce.commitments.binding) is Err,
        decoded_nonce(stored) is Err <==> commitment_encoding(stored.hiding_commitment) is Err
            || commitment_encoding(stored.binding_commitment) is Err,
        commitment_encoding(nonce.commitments.hiding) matches Err(message) ==> encoded_nonce(nonce)
            == Err::<PreparedFrostNonceView, SignerErrorView>(
            SignerErrorView::SerializationError(message),
        ),
        commitment_encoding(stored.hiding_commitment) matches Err(message) ==> decoded_nonce(stored)
            == Err::<FrostSigningCommitmentsWithNoncesView, SignerErrorView>(
            SignerErrorView::SerializationError(message),
        ),
{
}

} // verus!

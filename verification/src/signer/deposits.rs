//! Static deposits: exporting their key, refunding them and claiming them.

use vstd::prelude::*;

use crate::by_operator::ByOperator;
use crate::derivation::{deposit_path, static_deposit_path, DerivationPath};
use crate::error::{SignerError, SignerErrorView};
use crate::frost::{
    AggregateFrostRequest, AggregateFrostRequestView, FrostJob,
    FrostShareResult, FrostSigningCommitmentsWithNonces, OperatorCommitments, OperatorKey,
    OperatorShare,
};
use crate::keys::PublicKey;
use crate::signer::batch::{SignFrostRequest, SignFrostRequestView};
use crate::signer::identity::{
    ecdsa_under_identity, under_identity, EcdsaRequest, EcdsaSignature,
};
use crate::signer::secret::{
    EncryptSecretRequest, SecretSource, SecretSourceView, SparkSignerAdapter,
};

verus! {

/// Asks to hand a static deposit to a service provider.
#[derive(Debug, PartialEq, Eq)]
pub struct PrepareStaticDepositRequest {
    pub index: u32,
    pub ssp_public_key: PublicKey,
    pub frost_jobs: Vec<FrostJob>,
}

/// The key of a static deposit, encrypted for the service provider, and the wallet's shares of
/// the signatures.
#[derive(Debug, PartialEq, Eq)]
pub struct PreparedStaticDeposit {
    pub exported_secret: Vec<u8>,
    pub frost_shares: Vec<FrostShareResult>,
}

/// Asks to start the refund of a static deposit.
#[derive(Debug, PartialEq, Eq)]
pub struct StartStaticDepositRefundRequest {
    pub index: u32,
    pub user_statement: Vec<u8>,
}

/// What the operators are sent to start a refund. The commitments are used up when the refund is
/// signed.
#[derive(Debug, PartialEq, Eq)]
pub struct StartedStaticDepositRefund {
    pub signing_public_key: PublicKey,
    pub nonce_commitment: FrostSigningCommitmentsWithNonces,
    pub user_signature: EcdsaSignature,
}

/// Asks to sign the refund of a static deposit, with the commitments that started it.
#[derive(Debug, PartialEq, Eq)]
pub struct SignStaticDepositRefundRequest {
    pub index: u32,
    pub sighash: [u8; 32],
    pub verifying_key: PublicKey,
    pub nonce_commitment: FrostSigningCommitmentsWithNonces,
    pub statechain_commitments: ByOperator<OperatorCommitments>,
    pub statechain_signatures: ByOperator<OperatorShare>,
    pub statechain_public_keys: ByOperator<OperatorKey>,
}

/// Asks to claim a static deposit.
#[derive(Debug, PartialEq, Eq)]
pub struct PrepareStaticDepositClaimRequest {
    pub index: u32,
    pub user_statement: Vec<u8>,
}

/// The secret key of a static deposit in the clear, for the service provider that signs the claim
/// too, and the wallet's signature of its statement.
#[derive(Debug, PartialEq, Eq)]
pub struct PreparedStaticDepositClaim {
    pub deposit_secret_key: Vec<u8>,
    pub user_signature: EcdsaSignature,
}

/// The refusal of a static deposit index, in the type of any step.
pub open spec fn refuses_index(index: u32, error: SignerErrorView) -> bool {
    deposit_path(index) == Err::<Seq<u32>, SignerErrorView>(error)
}

impl<S, K> SparkSignerAdapter<S, K> {
    /// Starts to hand a static deposit over.
    pub fn prepare_static_deposit(&self, request: PrepareStaticDepositRequest) -> (result: Result<
        ExportNeeded,
        SignerError,
    >)
        ensures
            match result {
                Ok(step) => {
                    &&& deposit_path(request.index) is Ok
                    &&& step.question.secret@ == SecretSourceView::Derived(
                        deposit_path(request.index)->Ok_0,
                    )
                    &&& step.question.receiver == request.ssp_public_key
                    &&& step.frost_jobs == request.frost_jobs
                },
                Err(error) => refuses_index(request.index, error@),
            },
            result is Ok <==> request.index < 0x8000_0000,
            result matches Ok(step) ==> {
                &&& step.question.secret matches SecretSource::Derived(path)
                &&& path.children@ == seq![0x8000_0003u32, (0x8000_0000 + request.index) as u32]
            },
    {
        match static_deposit_path(request.index) {
            Ok(path) => Ok(
                ExportNeeded {
                    question: EncryptSecretRequest {
                        secret: SecretSource::Derived(path),
                        receiver: request.ssp_public_key,
                    },
                    frost_jobs: request.frost_jobs,
                },
            ),
            Err(error) => Err(error),
        }
    }

    /// Starts to start a refund.
    pub fn start_static_deposit_refund(&self, request: StartStaticDepositRefundRequest) -> (result:
        Result<RefundKeyNeeded, SignerError>)
        ensures
            match result {
                Ok(step) => {
                    &&& deposit_path(request.index) == Ok::<Seq<u32>, SignerErrorView>(step.path@)
                    &&& step.user_statement == request.user_statement
                },
                Err(error) => refuses_index(request.index, error@),
            },
            result is Ok <==> request.index < 0x8000_0000,
            result matches Ok(step) ==> step.path.children@ == seq![
                0x8000_0003u32,
                (0x8000_0000 + request.index) as u32,
            ],
    {
        match static_deposit_path(request.index) {
            Ok(path) => Ok(RefundKeyNeeded { path, user_statement: request.user_statement }),
            Err(error) => Err(error),
        }
    }

    /// Starts to sign a refund.
    pub fn sign_static_deposit_refund(&self, request: SignStaticDepositRefundRequest) -> (result:
        Result<RefundSigningKeyNeeded, SignerError>)
        ensures
            match result {
                Ok(step) => {
                    &&& deposit_path(request.index) == Ok::<Seq<u32>, SignerErrorView>(step.path@)
                    &&& step.request == request
                },
                Err(error) => refuses_index(request.index, error@),
            },
            result is Ok <==> request.index < 0x8000_0000,
            result matches Ok(step) ==> step.path.children@ == seq![
                0x8000_0003u32,
                (0x8000_0000 + request.index) as u32,
            ],
    {
        match static_deposit_path(request.index) {
            Ok(path) => Ok(RefundSigningKeyNeeded { request, path }),
            Err(error) => Err(error),
        }
    }

    /// Starts to claim a static deposit.
    pub fn prepare_static_deposit_claim(&self, request: PrepareStaticDepositClaimRequest) -> (
    result: Result<DepositSecretNeeded, SignerError>)
        ensures
            match result {
                Ok(step) => {
                    &&& deposit_path(request.index) == Ok::<Seq<u32>, SignerErrorView>(step.path@)
                    &&& step.user_statement == request.user_statement
                },
                Err(error) => refuses_index(request.index, error@),
            },
            result is Ok <==> request.index < 0x8000_0000,
            result matches Ok(step) ==> step.path.children@ == seq![
                0x8000_0003u32,
                (0x8000_0000 + request.index) as u32,
            ],
    {
        match static_deposit_path(request.index) {
            Ok(path) => Ok(DepositSecretNeeded { path, user_statement: request.user_statement }),
            Err(error) => Err(error),
        }
    }
}

/// A static deposit whose secret is needed encrypted for the service provider.
pub struct ExportNeeded {
    /// The question to the low-level signer.
    pub question: EncryptSecretRequest,
    pub frost_jobs: Vec<FrostJob>,
}

impl ExportNeeded {
    /// Takes the ciphertext, and asks for the shares of the jobs, with fresh nonces.
    pub fn exported(self, exported_secret: Vec<u8>) -> (step: DepositSharesNeeded)
        ensures
            step.exported_secret == exported_secret,
            step.frost_jobs == self.frost_jobs,
    {
        DepositSharesNeeded { exported_secret, frost_jobs: self.frost_jobs }
    }
}

/// A static deposit whose jobs are to be signed.
pub struct DepositSharesNeeded {
    pub exported_secret: Vec<u8>,
    pub frost_jobs: Vec<FrostJob>,
}

impl DepositSharesNeeded {
    /// Takes the shares of the jobs.
    pub fn signed(self, frost_shares: Vec<FrostShareResult>) -> (prepared: PreparedStaticDeposit)
        ensures
            prepared.exported_secret == self.exported_secret,
            prepared.frost_shares == frost_shares,
    {
        PreparedStaticDeposit { exported_secret: self.exported_secret, frost_shares }
    }
}

/// A refund that needs the public key at `path`.
pub struct RefundKeyNeeded {
    pub path: DerivationPath,
    pub user_statement: Vec<u8>,
}

impl RefundKeyNeeded {
    /// Takes the public key, and asks for fresh commitments.
    pub fn public_key_found(self, key: PublicKey) -> (step: RefundNonceNeeded)
        ensures
            step.signing_public_key == key,
            step.user_statement == self.user_statement,
    {
        RefundNonceNeeded { signing_public_key: key, user_statement: self.user_statement }
    }
}

/// A refund that needs fresh commitments.
pub struct RefundNonceNeeded {
    pub signing_public_key: PublicKey,
    pub user_statement: Vec<u8>,
}

impl RefundNonceNeeded {
    /// Takes the commitments, and asks for the wallet's signature of its statement.
    pub fn commitments_made(self, nonce_commitment: FrostSigningCommitmentsWithNonces) -> (result:
        Result<RefundStatementNeeded, SignerError>)
        ensures
            match result {
                Ok(step) => {
                    &&& step.signing_public_key == self.signing_public_key
                    &&& step.nonce_commitment == nonce_commitment
                    &&& step.signing@ == under_identity(self.user_statement@)
                },
                Err(_) => false,
            },
            result matches Ok(step) && step.signing.path.children@ == seq![0x8000_0000u32]
                && step.signing.message@ == self.user_statement@,
    {
        match ecdsa_under_identity(self.user_statement) {
            Ok(signing) => Ok(
                RefundStatementNeeded {
                    signing_public_key: self.signing_public_key,
                    nonce_commitment,
                    signing,
                },
            ),
            Err(error) => Err(error),
        }
    }
}

/// A refund that needs the wallet's signature of its statement.
pub struct RefundStatementNeeded {
    pub signing_public_key: PublicKey,
    pub nonce_commitment: FrostSigningCommitmentsWithNonces,
    /// The question to the low-level signer.
    pub signing: EcdsaRequest,
}

impl RefundStatementNeeded {
    /// Takes the signature: the refund can start.
    pub fn signature_made(self, user_signature: EcdsaSignature) -> (started:
        StartedStaticDepositRefund)
        ensures
            started.signing_public_key == self.signing_public_key,
            started.nonce_commitment == self.nonce_commitment,
            started.user_signature == user_signature,
    {
        StartedStaticDepositRefund {
            signing_public_key: self.signing_public_key,
            nonce_commitment: self.nonce_commitment,
            user_signature,
        }
    }
}

/// A refund to sign, which needs the public key at `path`.
pub struct RefundSigningKeyNeeded {
    pub request: SignStaticDepositRefundRequest,
    pub path: DerivationPath,
}

impl RefundSigningKeyNeeded {
    /// Takes the public key under which the shares are put together, and asks for the wallet's
    /// share under the commitments that started the refund.
    pub fn public_key_found(self, aggregating_public_key: PublicKey) -> (step: RefundShareNeeded)
        ensures
            step.request == self.request,
            step.aggregating_public_key == aggregating_public_key,
            step.signing@ == (SignFrostRequestView {
                message: self.request.sighash@,
                public_key: self.request.verifying_key@,
                private_key: SecretSourceView::Derived(self.path@),
                verifying_key: self.request.verifying_key@,
                self_nonce_commitment: self.request.nonce_commitment@,
                statechain_commitments: self.request.statechain_commitments@,
                adaptor_public_key: None,
            }),
            step.signing.message == self.request.sighash,
            step.signing.public_key == self.request.verifying_key,
            step.signing.private_key matches SecretSource::Derived(path) && path == self.path,
            step.signing.verifying_key == self.request.verifying_key,
            step.signing.self_nonce_commitment@ == self.request.nonce_commitment@,
            step.signing.statechain_commitments@ == self.request.statechain_commitments@,
            step.signing.adaptor_public_key is None,
    {
        let signing = SignFrostRequest {
            message: self.request.sighash,
            public_key: self.request.verifying_key,
            private_key: SecretSource::Derived(self.path),
            verifying_key: self.request.verifying_key,
            self_nonce_commitment: self.request.nonce_commitment.clone(),
            statechain_commitments: self.request.statechain_commitments.clone(),
            adaptor_public_key: None,
        };
        RefundShareNeeded { request: self.request, aggregating_public_key, signing }
    }
}

/// A refund that needs the wallet's share of the signature.
pub struct RefundShareNeeded {
    pub request: SignStaticDepositRefundRequest,
    pub aggregating_public_key: PublicKey,
    /// The question to the low-level signer.
    pub signing: SignFrostRequest,
}

impl RefundShareNeeded {
    /// Takes the share, and asks for the signature that it makes together with the operators'.
    pub fn share_made(self, user_signature: Vec<u8>) -> (aggregation: AggregateFrostRequest)
        ensures
            aggregation@ == (AggregateFrostRequestView {
                message: self.request.sighash@,
                statechain_signatures: self.request.statechain_signatures@,
                statechain_public_keys: self.request.statechain_public_keys@,
                verifying_key: self.request.verifying_key@,
                statechain_commitments: self.request.statechain_commitments@,
                self_commitment: self.request.nonce_commitment@.commitments,
                public_key: self.aggregating_public_key@,
                self_signature: user_signature@,
                adaptor_public_key: None,
            }),
            aggregation.message == self.request.sighash,
            aggregation.statechain_signatures == self.request.statechain_signatures,
            aggregation.statechain_public_keys == self.request.statechain_public_keys,
            aggregation.verifying_key == self.request.verifying_key,
            aggregation.statechain_commitments == self.request.statechain_commitments,
            aggregation.self_commitment == self.request.nonce_commitment.commitments,
            aggregation.public_key == self.aggregating_public_key,
            aggregation.self_signature == user_signature,
            aggregation.adaptor_public_key is None,
    {
        let request = self.request;
        AggregateFrostRequest {
            message: request.sighash,
            statechain_signatures: request.statechain_signatures,
            statechain_public_keys: request.statechain_public_keys,
            verifying_key: request.verifying_key,
            statechain_commitments: request.statechain_commitments,
            self_commitment: request.nonce_commitment.commitments,
            public_key: self.aggregating_public_key,
            self_signature: user_signature,
            adaptor_public_key: None,
        }
    }
}

/// A claim that needs the secret key at `path` in the clear.
pub struct DepositSecretNeeded {
    pub path: DerivationPath,
    pub user_statement: Vec<u8>,
}

impl DepositSecretNeeded {
    /// Takes the secret key, and asks for the wallet's signature of its statement.
    pub fn secret_key_found(self, deposit_secret_key: Vec<u8>) -> (result: Result<
        ClaimStatementNeeded,
        SignerError,
    >)
        ensures
            match result {
                Ok(step) => {
                    &&& step.deposit_secret_key == deposit_secret_key
                    &&& step.signing@ == under_identity(self.user_statement@)
                },
                Err(_) => false,
            },
            result matches Ok(step) && step.signing.path.children@ == seq![0x8000_0000u32]
                && step.signing.message@ == self.user_statement@,
    {
        match ecdsa_under_identity(self.user_statement) {
            Ok(signing) => Ok(ClaimStatementNeeded { deposit_secret_key, signing }),
            Err(error) => Err(error),
        }
    }
}

/// A claim that needs the wallet's signature of its statement.
pub struct ClaimStatementNeeded {
    pub deposit_secret_key: Vec<u8>,
    /// The question to the low-level signer.
    pub signing: EcdsaRequest,
}

impl ClaimStatementNeeded {
    /// Takes the signature: the claim is ready.
    pub fn signature_made(self, user_signature: EcdsaSignature) -> (prepared:
        PreparedStaticDepositClaim)
        ensures
            prepared.deposit_secret_key == self.deposit_secret_key,
            prepared.user_signature == user_signature,
    {
        PreparedStaticDepositClaim { deposit_secret_key: self.deposit_secret_key, user_signature }
    }
}

} // verus!

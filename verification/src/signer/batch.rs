//! Signing jobs together with the operators, one after the other.

use vstd::prelude::*;

use crate::by_operator::ByOperator;
use crate::error::{SignerError, SignerErrorView};
use crate::frost::{
    commitment_encoding, decode_prepared_nonce, decoded_nonce, encode_prepared_nonce, encoded_nonce,
    is_canonical_commitment, FrostDerivation, FrostJob, FrostJobView, FrostShareResult,
    FrostShareResultView, FrostSigningCommitmentsWithNonces,
    FrostSigningCommitmentsWithNoncesView, OperatorCommitments, OperatorCommitmentsView,
    PreparedFrostNonce, PreparedFrostNonceView,
};
use crate::keys::PublicKey;
use crate::model::{view_option, views};
use crate::signer::secret::{SecretSource, SecretSourceView, SparkSignerAdapter};
use crate::text::{decimal, decimal_digits, join, join4};

verus! {

/// Asks the low-level signer for its share of a signature.
#[derive(Debug, PartialEq, Eq)]
pub struct SignFrostRequest {
    pub message: [u8; 32],
    pub public_key: PublicKey,
    pub private_key: SecretSource,
    pub verifying_key: PublicKey,
    pub self_nonce_commitment: FrostSigningCommitmentsWithNonces,
    pub statechain_commitments: ByOperator<OperatorCommitments>,
    pub adaptor_public_key: Option<PublicKey>,
}

/// The view of a `SignFrostRequest`.
pub struct SignFrostRequestView {
    pub message: Seq<u8>,
    pub public_key: Seq<u8>,
    pub private_key: SecretSourceView,
    pub verifying_key: Seq<u8>,
    pub self_nonce_commitment: FrostSigningCommitmentsWithNoncesView,
    pub statechain_commitments: Seq<OperatorCommitmentsView>,
    pub adaptor_public_key: Option<Seq<u8>>,
}

impl View for SignFrostRequest {
    type V = SignFrostRequestView;

    open spec fn view(&self) -> SignFrostRequestView {
        SignFrostRequestView {
            message: self.message@,
            public_key: self.public_key@,
            private_key: self.private_key@,
            verifying_key: self.verifying_key@,
            self_nonce_commitment: self.self_nonce_commitment@,
            statechain_commitments: self.statechain_commitments@,
            adaptor_public_key: view_option(self.adaptor_public_key),
        }
    }
}

/// What the low-level signer is asked for a job.
pub open spec fn share_request(
    job: FrostJobView,
    commitment: FrostSigningCommitmentsWithNoncesView,
    private_key: SecretSourceView,
    public_key: Seq<u8>,
) -> SignFrostRequestView {
    SignFrostRequestView {
        message: job.sighash,
        public_key,
        private_key,
        verifying_key: job.verifying_key,
        self_nonce_commitment: commitment,
        statechain_commitments: job.operator_commitments,
        adaptor_public_key: job.adaptor_public_key,
    }
}

impl<S, K> SparkSignerAdapter<S, K> {
    /// Starts to sign jobs, each with a fresh nonce.
    pub fn sign_frost(&self, jobs: Vec<FrostJob>) -> (batch: FrostBatch)
        ensures
            batch.wf(),
            batch.jobs == jobs,
            batch.nonces is None,
            batch.results@.len() == 0,
    {
        FrostBatch { jobs, nonces: None, results: Vec::new() }
    }

    /// Starts to sign jobs, each with the prepared nonce at its place.
    pub fn sign_frost_with_nonces(
        &self,
        jobs: Vec<FrostJob>,
        nonces: Vec<PreparedFrostNonce>,
    ) -> (result: Result<FrostBatch, SignerError>)
        ensures
            match result {
                Ok(batch) => {
                    &&& jobs@.len() == nonces@.len()
                    &&& batch.wf()
                    &&& batch.jobs == jobs
                    &&& batch.nonces == Some(nonces)
                    &&& batch.results@.len() == 0
                },
                Err(error) => {
                    &&& jobs@.len() != nonces@.len()
                    &&& error@ == SignerErrorView::Generic(
                        "received "@ + decimal_digits(jobs@.len()) + " FROST jobs and "@
                            + decimal_digits(nonces@.len()) + " prepared nonces"@,
                    )
                },
            },
    {
        if jobs.len() != nonces.len() {
            let job_count = decimal(jobs.len() as u64);
            let nonce_count = decimal(nonces.len() as u64);
            let counts = join4(
                "received ",
                job_count.as_str(),
                " FROST jobs and ",
                nonce_count.as_str(),
            );
            return Err(SignerError::Generic(join(counts.as_str(), " prepared nonces")));
        }
        Ok(FrostBatch { jobs, nonces: Some(nonces), results: Vec::new() })
    }

    /// Starts to prepare this many nonces.
    pub fn prepare_frost_nonces(&self, count: usize) -> (batch: NonceBatch)
        ensures
            batch.count == count,
            batch.prepared@.len() == 0,
    {
        NonceBatch { count, prepared: Vec::new() }
    }
}

/// Nonces to prepare, some of which are.
pub struct NonceBatch {
    pub count: usize,
    pub prepared: Vec<PreparedFrostNonce>,
}

impl NonceBatch {
    /// Whether fresh commitments are needed.
    pub fn needs_more(&self) -> (more: bool)
        ensures
            more == (self.prepared@.len() < self.count),
    {
        self.prepared.len() < self.count
    }

    /// Takes fresh commitments, in the form in which they are stored.
    pub fn commitments_made(self, nonce: FrostSigningCommitmentsWithNonces) -> (result: Result<
        NonceBatch,
        SignerError,
    >)
        ensures
            match result {
                Ok(next) => {
                    &&& next.count == self.count
                    &&& encoded_nonce(nonce@) == Ok::<PreparedFrostNonceView, SignerErrorView>(
                        views(next.prepared@).last(),
                    )
                    &&& views(next.prepared@).drop_last() == views(self.prepared@)
                    &&& next.prepared@.len() == self.prepared@.len() + 1
                },
                Err(error) => encoded_nonce(nonce@) == Err::<
                    PreparedFrostNonceView,
                    SignerErrorView,
                >(error@),
            },
            result is Ok <==> commitment_encoding(nonce.commitments.hiding@) is Ok
                && commitment_encoding(nonce.commitments.binding@) is Ok,
            result matches Ok(next) ==> {
                let n = self.prepared@.len() as int;
                &&& next.prepared@.take(n) == self.prepared@
                &&& commitment_encoding(nonce.commitments.hiding@) == Ok::<Seq<u8>, Seq<char>>(
                    next.prepared@[n].hiding_commitment@,
                )
                &&& commitment_encoding(nonce.commitments.binding@) == Ok::<Seq<u8>, Seq<char>>(
                    next.prepared@[n].binding_commitment@,
                )
                &&& next.prepared@[n].nonces_ciphertext@ == nonce.nonces_ciphertext@
            },
    {
        let mut next = self;
        match encode_prepared_nonce(nonce) {
            Ok(stored) => {
                next.prepared.push(stored);
                assert(views(next.prepared@).drop_last() =~= views(self.prepared@));
                assert(next.prepared@.take(self.prepared@.len() as int) =~= self.prepared@);
                Ok(next)
            },
            Err(error) => Err(error),
        }
    }
}

/// Jobs to sign, some of which have their shares, in order.
pub struct FrostBatch {
    pub jobs: Vec<FrostJob>,
    /// The prepared nonces, unless each job gets a fresh one.
    pub nonces: Option<Vec<PreparedFrostNonce>>,
    pub results: Vec<FrostShareResult>,
}

impl FrostBatch {
    /// Whether each prepared nonce belongs to a job, and each share was made under the nonce at
    /// its place.
    pub open spec fn wf(self) -> bool {
        &&& self.results@.len() <= self.jobs@.len()
        &&& self.nonces matches Some(nonces) ==> {
            &&& nonces@.len() == self.jobs@.len()
            &&& forall|i: int|
                0 <= i < self.results@.len() ==> decoded_nonce(nonces@[i]@) == Ok::<
                    FrostSigningCommitmentsWithNoncesView,
                    SignerErrorView,
                >((#[trigger] self.results@[i])@.commitment)
        }
    }

    /// Whether commitments are those that the next job is to be signed under.
    pub open spec fn allows(self, commitment: FrostSigningCommitmentsWithNoncesView) -> bool {
        &&& self.wf()
        &&& self.results@.len() < self.jobs@.len()
        &&& self.nonces matches Some(nonces) ==> decoded_nonce(
            nonces@[self.results@.len() as int]@,
        ) == Ok::<FrostSigningCommitmentsWithNoncesView, SignerErrorView>(commitment)
    }

    /// The next job.
    pub open spec fn job(self) -> FrostJobView {
        self.jobs@[self.results@.len() as int]@
    }

    /// Goes to the next job that needs a share, or ends with all shares. A prepared nonce is read
    /// when its job comes up.
    pub fn next(self) -> (result: Result<FrostStep, SignerError>)
        requires
            self.wf(),
        ensures
            match result {
                Ok(FrostStep::Done(results)) => {
                    &&& self.results@.len() == self.jobs@.len()
                    &&& results == self.results
                },
                Ok(FrostStep::NonceNeeded(step)) => {
                    &&& self.results@.len() < self.jobs@.len()
                    &&& self.nonces is None
                    &&& step.batch == self
                },
                Ok(FrostStep::SecretNeeded(step)) => {
                    &&& self.results@.len() < self.jobs@.len()
                    &&& self.nonces is Some
                    &&& self.allows(step.commitment@)
                    &&& step.batch == self
                },
                Err(error) => {
                    &&& self.results@.len() < self.jobs@.len()
                    &&& self.nonces is Some
                    &&& decoded_nonce(self.nonces->Some_0@[self.results@.len() as int]@) == Err::<
                        FrostSigningCommitmentsWithNoncesView,
                        SignerErrorView,
                    >(error@)
                },
            },
            result matches Ok(FrostStep::SecretNeeded(step)) ==> {
                let nonce = self.nonces->Some_0@[self.results@.len() as int];
                &&& commitment_encoding(nonce.hiding_commitment@) == Ok::<Seq<u8>, Seq<char>>(
                    step.commitment.commitments.hiding@,
                )
                &&& commitment_encoding(nonce.binding_commitment@) == Ok::<Seq<u8>, Seq<char>>(
                    step.commitment.commitments.binding@,
                )
                &&& step.commitment.nonces_ciphertext@ == nonce.nonces_ciphertext@
            },
    {
        let i: usize = self.results.len();
        if i == self.jobs.len() {
            return Ok(FrostStep::Done(self.results));
        }
        let commitment = match &self.nonces {
            None => return Ok(FrostStep::NonceNeeded(FrostNonceNeeded { batch: self })),
            Some(nonces) => match decode_prepared_nonce(nonces[i].clone()) {
                Ok(commitment) => commitment,
                Err(error) => return Err(error),
            },
        };
        Ok(FrostStep::SecretNeeded(FrostSecretNeeded { batch: self, commitment }))
    }
}

/// What signing a batch needs next.
pub enum FrostStep {
    Done(Vec<FrostShareResult>),
    NonceNeeded(FrostNonceNeeded),
    SecretNeeded(FrostSecretNeeded),
}

/// A batch whose next job needs a fresh nonce.
pub struct FrostNonceNeeded {
    pub batch: FrostBatch,
}

impl FrostNonceNeeded {
    /// Takes fresh commitments for the job.
    pub fn commitments_made(self, commitment: FrostSigningCommitmentsWithNonces) -> (step:
        FrostSecretNeeded)
        ensures
            step.batch == self.batch,
            step.commitment == commitment,
            self.batch.wf() && self.batch.nonces is None && self.batch.results@.len()
                < self.batch.jobs@.len() ==> step.batch.allows(commitment@),
    {
        FrostSecretNeeded { batch: self.batch, commitment }
    }
}

/// A batch whose next job needs the secret of its key.
pub struct FrostSecretNeeded {
    pub batch: FrostBatch,
    pub commitment: FrostSigningCommitmentsWithNonces,
}

impl FrostSecretNeeded {
    /// The key whose secret is needed.
    pub fn derivation(&self) -> (derivation: FrostDerivation)
        requires
            self.batch.results@.len() < self.batch.jobs@.len(),
        ensures
            derivation@ == self.batch.job().derivation,
            derivation@ == self.batch.jobs@[self.batch.results@.len() as int].derivation@,
    {
        let i: usize = self.batch.results.len();
        self.batch.jobs[i].derivation.clone()
    }

    /// Takes the secret of the key, and asks for its public key.
    pub fn secret_found(self, private_key: SecretSource) -> (step: FrostPublicKeyNeeded)
        ensures
            step.batch == self.batch,
            step.commitment == self.commitment,
            step.private_key == private_key,
    {
        FrostPublicKeyNeeded { batch: self.batch, commitment: self.commitment, private_key }
    }
}

/// A batch whose next job needs the public key of `private_key`.
pub struct FrostPublicKeyNeeded {
    pub batch: FrostBatch,
    pub commitment: FrostSigningCommitmentsWithNonces,
    pub private_key: SecretSource,
}

impl FrostPublicKeyNeeded {
    /// Takes the public key, and asks for the share.
    pub fn public_key_found(self, public_key: PublicKey) -> (step: FrostShareNeeded)
        requires
            self.batch.results@.len() < self.batch.jobs@.len(),
        ensures
            step.request@ == share_request(
                self.batch.job(),
                self.commitment@,
                self.private_key@,
                public_key@,
            ),
            step.batch == self.batch,
            ({
                let job = self.batch.jobs@[self.batch.results@.len() as int];
                &&& step.request.message == job.sighash
                &&& step.request.public_key == public_key
                &&& step.request.private_key == self.private_key
                &&& step.request.verifying_key == job.verifying_key
                &&& step.request.self_nonce_commitment == self.commitment
                &&& step.request.statechain_commitments@ == job.operator_commitments@
                &&& step.request.adaptor_public_key == job.adaptor_public_key
            }),
    {
        let i: usize = self.batch.results.len();
        let job = &self.batch.jobs[i];
        let request = SignFrostRequest {
            message: job.sighash,
            public_key,
            private_key: self.private_key,
            verifying_key: job.verifying_key,
            self_nonce_commitment: self.commitment,
            statechain_commitments: job.operator_commitments.clone(),
            adaptor_public_key: job.adaptor_public_key,
        };
        FrostShareNeeded { request, batch: self.batch }
    }
}

/// A batch whose next job needs the signer's share.
pub struct FrostShareNeeded {
    /// The question to the low-level signer.
    pub request: SignFrostRequest,
    pub batch: FrostBatch,
}

impl FrostShareNeeded {
    /// Takes the share, with the commitments that it was made for.
    pub fn share_made(self, signature_share: Vec<u8>) -> (next: FrostBatch)
        requires
            self.batch.allows(self.request@.self_nonce_commitment),
        ensures
            next.wf(),
            next.jobs == self.batch.jobs,
            next.nonces == self.batch.nonces,
            next.results@.len() == self.batch.results@.len() + 1,
            views(next.results@) == views(self.batch.results@).push(
                FrostShareResultView {
                    commitment: self.request@.self_nonce_commitment,
                    signature_share: signature_share@,
                },
            ),
            next.results@ == self.batch.results@.push(
                FrostShareResult {
                    commitment: self.request.self_nonce_commitment,
                    signature_share,
                },
            ),
    {
        let mut next = self.batch;
        let share = FrostShareResult {
            commitment: self.request.self_nonce_commitment,
            signature_share,
        };
        next.results.push(share);
        assert(views(next.results@) =~= views(self.batch.results@).push(share@));
        assert(views(next.results@).len() == next.results@.len());
        next
    }
}

/// A nonce that was prepared and stored is the one that the job at its place is signed under: if
/// its commitments were in their canonical encoding, the share comes with just these commitments
/// and the same encrypted nonces.
pub proof fn prepared_nonces_are_used(
    batch: FrostBatch,
    prepared: FrostSigningCommitmentsWithNoncesView,
    i: int,
)
    requires
        batch.wf(),
        batch.nonces is Some,
        0 <= i < batch.results@.len(),
        is_canonical_commitment(prepared.commitments.hiding),
        is_canonical_commitment(prepared.commitments.binding),
        encoded_nonce(prepared) == Ok::<PreparedFrostNonceView, SignerErrorView>(
            batch.nonces->Some_0@[i]@,
        ),
    ensures
        batch.results@[i]@.commitment == prepared,
{
}

/// The low-level signer is asked to sign the message of the job, under the verifying key, the
/// operators' commitments and the adaptor of the same job, and with the nonce and the keys that
/// were found for it.
pub proof fn shares_are_asked_for_the_job(
    job: FrostJobView,
    commitment: FrostSigningCommitmentsWithNoncesView,
    private_key: SecretSourceView,
    public_key: Seq<u8>,
)
    ensures
        ({
            let asked = share_request(job, commitment, private_key, public_key);
            &&& asked.message == job.sighash
            &&& asked.verifying_key == job.verifying_key
            &&& asked.statechain_commitments == job.operator_commitments
            &&& asked.adaptor_public_key == job.adaptor_public_key
            &&& asked.self_nonce_commitment == commitment
            &&& asked.private_key == private_key
            &&& asked.public_key == public_key
        }),
{
}

} // verus!

//! Receiving a Lightning payment: the preimage goes to the operators in shares.

use vstd::prelude::*;

use crate::derivation::{sha256, sha256_digest};
use crate::error::{SignerError, SignerErrorView};
use crate::keys::{secret_public_key, uncompressed_public_key};
use crate::model::views;
use crate::signer::packages::{encrypted_for_operator, OperatorPackage, OperatorPackageView};
use crate::signer::secret::SparkSignerAdapter;
use crate::signer::shares::{
    be_value, ids_in_range, owed_share, proto_secret_share, require_share, sent_share,
    OperatorRecipient, SecretShare, VerifiableSecretShare, VerifiableSecretShareView,
};
use crate::signer::transfer::{
    SecretToSplit, SecretToSplitView, SplitSecretRequest, SplitSecretRequestView,
};

verus! {

/// `secp256k1::SecretKey::new` with the generator of the thread, and `secret_bytes` of the key:
/// 32 bytes that are a secret key, and otherwise anything.
#[verifier::external_body]
fn random_preimage() -> (preimage: [u8; 32])
    ensures
        secret_public_key(preimage@) is Some,
{
    let mut rng = bitcoin::secp256k1::rand::thread_rng();
    bitcoin::secp256k1::SecretKey::new(&mut rng).secret_bytes()
}

/// Asks for the hash and the encrypted shares of a fresh preimage.
#[derive(Debug, PartialEq, Eq)]
pub struct PrepareLightningReceiveRequest {
    pub operator_recipients: Vec<OperatorRecipient>,
    pub threshold: u32,
}

/// The hash to pay to, and the preimage in encrypted shares.
#[derive(Debug, PartialEq, Eq)]
pub struct PreparedLightningReceive {
    pub payment_hash: [u8; 32],
    pub operator_preimage_packages: Vec<OperatorPackage>,
}

impl<S, K> SparkSignerAdapter<S, K> {
    /// Starts to prepare a receive with a fresh random preimage, of which only the hash leaves.
    pub fn prepare_lightning_receive(&self, request: PrepareLightningReceiveRequest) -> (step:
        PreimageSharesNeeded)
        ensures
            step.recipients == request.operator_recipients,
            step.split@.threshold == request.threshold,
            step.split@.share_count == request.operator_recipients@.len(),
            step.split@.secret matches SecretToSplitView::Preimage(preimage)
                && preimage.len() == 32 && secret_public_key(preimage) is Some
                && step.payment_hash@ == sha256_digest(preimage),
            step.split.threshold == request.threshold,
            step.split.share_count == request.operator_recipients@.len(),
            step.split.secret matches SecretToSplit::Preimage(preimage) && preimage@.len() == 32
                && step.payment_hash@ == sha256_digest(preimage@),
    {
        receive_with_preimage(request, random_preimage())
    }
}

/// Starts to prepare a receive with a given preimage.
pub fn receive_with_preimage(
    request: PrepareLightningReceiveRequest,
    preimage: [u8; 32],
) -> (step: PreimageSharesNeeded)
    ensures
        step.recipients == request.operator_recipients,
        step.payment_hash@ == sha256_digest(preimage@),
        step.split@ == (SplitSecretRequestView {
            secret: SecretToSplitView::Preimage(preimage@),
            threshold: request.threshold,
            share_count: request.operator_recipients@.len(),
        }),
        step.split.threshold == request.threshold,
        step.split.share_count == request.operator_recipients@.len(),
        step.split.secret matches SecretToSplit::Preimage(secret) && secret@ == preimage@,
{
    let payment_hash: [u8; 32] = sha256(preimage.as_slice());
    let secret = vstd::slice::slice_to_vec(preimage.as_slice());
    assert(secret@ =~= preimage@);
    let split = SplitSecretRequest {
        secret: SecretToSplit::Preimage(secret),
        threshold: request.threshold,
        share_count: request.operator_recipients.len(),
    };
    PreimageSharesNeeded { recipients: request.operator_recipients, payment_hash, split }
}

/// A receive that needs the shares of its preimage.
pub struct PreimageSharesNeeded {
    pub recipients: Vec<OperatorRecipient>,
    pub payment_hash: [u8; 32],
    /// The question to the low-level signer.
    pub split: SplitSecretRequest,
}

impl PreimageSharesNeeded {
    /// Takes the shares, which go to the operators one after the other.
    pub fn shares_made(self, shares: Vec<VerifiableSecretShare>) -> (run: PreimagePackages)
        requires
            ids_in_range(self.recipients@),
        ensures
            run.wf(),
            run.recipients == self.recipients,
            run.payment_hash == self.payment_hash,
            run.shares == shares,
            run.packages@.len() == 0,
    {
        PreimagePackages {
            recipients: self.recipients,
            payment_hash: self.payment_hash,
            shares,
            packages: Vec::new(),
        }
    }
}

/// A share to encode and to encrypt to a public key, which is given uncompressed.
pub struct ShareToEncrypt {
    pub public_key: Vec<u8>,
    pub share: SecretShare,
}

/// The shares of a preimage, some of which are encrypted.
pub struct PreimagePackages {
    pub recipients: Vec<OperatorRecipient>,
    pub payment_hash: [u8; 32],
    pub shares: Vec<VerifiableSecretShare>,
    pub packages: Vec<OperatorPackage>,
}

impl PreimagePackages {
    /// Whether each package is for the operator at its place.
    pub open spec fn wf(self) -> bool {
        &&& ids_in_range(self.recipients@)
        &&& self.packages@.len() <= self.recipients@.len()
        &&& forall|i: int|
            0 <= i < self.packages@.len() ==> (#[trigger] self.packages@[i]).operator_identifier@
                == self.recipients@[i].identifier@
    }

    /// The share of the next operator, to encrypt to its key.
    pub fn next(&self) -> (result: Result<Option<ShareToEncrypt>, SignerError>)
        requires
            self.wf(),
        ensures
            ({
                let k = self.packages@.len() as int;
                if k == self.recipients@.len() {
                    result matches Ok(None)
                } else {
                    let owed = owed_share(views(self.shares@), self.recipients@[k].id as nat);
                    match result {
                        Ok(Some(next)) => {
                            &&& owed is Ok
                            &&& next.share@ == sent_share(owed->Ok_0)
                            &&& next.public_key@ == uncompressed_public_key(
                                self.recipients@[k].public_key@,
                            )
                        },
                        Ok(None) => false,
                        Err(error) => owed == Err::<VerifiableSecretShareView, SignerErrorView>(
                            error@,
                        ),
                    }
                }
            }),
            result matches Ok(Some(next)) ==> {
                let id = self.recipients@[self.packages@.len() as int].id;
                exists|i: int|
                    {
                        &&& 0 <= i < self.shares@.len()
                        &&& be_value((#[trigger] self.shares@[i]).index@) == id + 1
                        &&& next.share.secret_share@ == self.shares@[i].share@
                        &&& next.share.proofs@.len() == self.shares@[i].proofs@.len()
                        &&& forall|j: int|
                            0 <= j < next.share.proofs@.len() ==> (
                            #[trigger] next.share.proofs@[j])@ == self.shares@[i].proofs@[j]@
                    }
            },
            result is Err ==> forall|i: int|
                0 <= i < self.shares@.len() ==> be_value((#[trigger] self.shares@[i]).index@)
                    != self.recipients@[self.packages@.len() as int].id + 1,
    {
        let k: usize = self.packages.len();
        if k == self.recipients.len() {
            return Ok(None);
        }
        match require_share(&self.shares, self.recipients[k].id) {
            Ok(share) => Ok(
                Some(
                    ShareToEncrypt {
                        public_key: self.recipients[k].public_key.serialize_uncompressed(),
                        share: proto_secret_share(share),
                    },
                ),
            ),
            Err(error) => Err(error),
        }
    }

    /// Takes the answer of the encryption of that share.
    pub fn encrypted(self, answer: Result<Vec<u8>, String>) -> (result: Result<
        PreimagePackages,
        SignerError,
    >)
        requires
            self.wf(),
            self.packages@.len() < self.recipients@.len(),
        ensures
            match (answer, result) {
                (Ok(ciphertext), Ok(next)) => {
                    &&& next.wf()
                    &&& next.packages@.len() == self.packages@.len() + 1
                    &&& next.recipients == self.recipients
                    &&& next.payment_hash == self.payment_hash
                    &&& next.shares == self.shares
                    &&& views(next.packages@) == views(self.packages@).push(
                        OperatorPackageView {
                            operator_identifier:
                                self.recipients@[self.packages@.len() as int].identifier@,
                            encrypted_package: ciphertext@,
                        },
                    )
                },
                (Err(message), Err(error)) => error@ == SignerErrorView::Generic(
                    "ECIES encryption failed: "@ + message@,
                ),
                _ => false,
            },
            answer is Ok <==> result is Ok,
            result matches Ok(next) ==> {
                let k = self.packages@.len() as int;
                &&& next.packages@.take(k) == self.packages@
                &&& next.packages@[k].operator_identifier@ == self.recipients@[k].identifier@
                &&& next.packages@[k].encrypted_package@ == answer->Ok_0@
            },
    {
        let ciphertext = match encrypted_for_operator(answer) {
            Ok(ciphertext) => ciphertext,
            Err(error) => return Err(error),
        };
        let mut next = self;
        let k: usize = next.packages.len();
        let package = OperatorPackage {
            operator_identifier: next.recipients[k].identifier,
            encrypted_package: ciphertext,
        };
        let ghost added = package@;
        next.packages.push(package);
        assert(views(next.packages@) =~= views(self.packages@).push(added));
        assert(next.packages@.take(k as int) =~= self.packages@);
        Ok(next)
    }

    /// The receive, once every operator has its package.
    pub fn finish(self) -> (prepared: PreparedLightningReceive)
        requires
            self.wf(),
            self.packages@.len() == self.recipients@.len(),
        ensures
            prepared.payment_hash == self.payment_hash,
            prepared.operator_preimage_packages == self.packages,
    {
        PreparedLightningReceive {
            payment_hash: self.payment_hash,
            operator_preimage_packages: self.packages,
        }
    }
}

} // verus!

//! Taking over the keys of leaves that a sender handed over.

use vstd::prelude::*;

use crate::byte_map::ByteMap;
use crate::derivation::{leaf_path, signing_path};
use crate::error::{SignerError, SignerErrorView};
use crate::keys::PublicKey;
use crate::model::{copy_bytes, view_option, views};
use crate::signer::packages::{
    bundle_of, each_operator_gets_its_own, identifiers, table_views, KeyTweak, OperatorPackage,
    PackageRun,
};
use crate::signer::secret::{
    SecretSource, SecretSourceView, SparkSignerAdapter, SubtractSecretsRequest,
};
use crate::signer::shares::{
    ids_in_range, proto_secret_share, pubkey_shares_tweak, pubkey_tweaks, require_share,
    sent_share, share_of, tweaked_operators_have_shares, OperatorRecipient,
    OperatorRecipientView, SecretShare, SecretShareView, VerifiableSecretShare,
    VerifiableSecretShareView,
};
use crate::signer::transfer::{
    SecretToSplit, SecretToSplitView, SplitSecretRequest, SplitSecretRequestView, TransferId,
};
use crate::tree::TreeNodeId;

verus! {

/// A leaf to take over, with its key as the sender encrypted it for the wallet.
#[derive(Debug, PartialEq, Eq)]
pub struct LeafToClaim {
    pub node_id: TreeNodeId,
    pub leaf_key_ciphertext: Vec<u8>,
}

/// Asks for everything that the claim of a transfer needs to be encrypted.
#[derive(Debug, PartialEq, Eq)]
pub struct PrepareClaimRequest {
    pub transfer_id: TransferId,
    pub sender_identity_public_key: PublicKey,
    pub leaves: Vec<LeafToClaim>,
    pub operator_recipients: Vec<OperatorRecipient>,
    pub threshold: u32,
}

/// What an operator is told of a leaf that is taken over.
#[derive(Debug, PartialEq, Eq)]
pub struct ClaimLeafKeyTweak {
    pub leaf_id: String,
    pub secret_share_tweak: Option<SecretShare>,
    pub pubkey_shares_tweak: ByteMap,
}

/// The view of a `ClaimLeafKeyTweak`.
pub struct ClaimLeafKeyTweakView {
    pub leaf_id: Seq<char>,
    pub secret_share_tweak: Option<SecretShareView>,
    pub pubkey_shares_tweak: Map<Seq<char>, Seq<u8>>,
}

impl View for ClaimLeafKeyTweak {
    type V = ClaimLeafKeyTweakView;

    open spec fn view(&self) -> ClaimLeafKeyTweakView {
        ClaimLeafKeyTweakView {
            leaf_id: self.leaf_id@,
            secret_share_tweak: view_option(self.secret_share_tweak),
            pubkey_shares_tweak: self.pubkey_shares_tweak@,
        }
    }
}

impl KeyTweak for ClaimLeafKeyTweak {
    fn copy(&self) -> (copy: Self) {
        ClaimLeafKeyTweak {
            leaf_id: self.leaf_id.clone(),
            secret_share_tweak: match &self.secret_share_tweak {
                Some(share) => Some(share.clone()),
                None => None,
            },
            pubkey_shares_tweak: self.pubkey_shares_tweak.clone(),
        }
    }
}

/// A claim that is ready to be sent. The wallet's signature of it is made where the packages are
/// put together.
#[derive(Debug, PartialEq, Eq)]
pub struct PreparedClaim {
    pub operator_packages: Vec<OperatorPackage>,
}

/// What each operator is told of a leaf: its own share of the tweak, and the public keys of all
/// shares.
pub open spec fn claim_row(
    leaf_id: Seq<char>,
    recipients: Seq<OperatorRecipientView>,
    shares: Seq<VerifiableSecretShareView>,
    tweaks: Map<Seq<char>, Seq<u8>>,
) -> Seq<ClaimLeafKeyTweakView> {
    Seq::new(
        recipients.len(),
        |k: int|
            ClaimLeafKeyTweakView {
                leaf_id,
                secret_share_tweak: Some(
                    sent_share(share_of(shares, recipients[k].id)->Some_0),
                ),
                pubkey_shares_tweak: tweaks,
            },
    )
}

/// What the work on a leaf came to: the shares of its tweak, and their public keys.
pub struct TakenLeaf {
    pub shares: Seq<VerifiableSecretShareView>,
    pub tweaks: Map<Seq<char>, Seq<u8>>,
}

impl<S, K> SparkSignerAdapter<S, K> {
    /// Starts to prepare a claim.
    pub fn prepare_claim(&self, request: PrepareClaimRequest) -> (run: ClaimRun)
        requires
            ids_in_range(request.operator_recipients@),
        ensures
            run.wf(),
            run.request == request,
            run.rows@.len() == 0,
    {
        ClaimRun { request, rows: Vec::new(), taken: Ghost(Seq::empty()) }
    }
}

/// A claim some of whose leaves are prepared.
pub struct ClaimRun {
    pub request: PrepareClaimRequest,
    /// A row for each prepared leaf, and in it what each operator is told.
    pub rows: Vec<Vec<ClaimLeafKeyTweak>>,
    /// What the work on each prepared leaf came to.
    pub taken: Ghost<Seq<TakenLeaf>>,
}

/// What preparing a claim needs next.
pub enum ClaimStep {
    /// The tweak of the next leaf.
    TweakNeeded(ClaimTweakNeeded),
    /// The packages of the operators.
    PackagesNeeded(PackageRun<ClaimLeafKeyTweak>),
}

impl ClaimRun {
    /// Whether every prepared leaf has a row with what each operator is told of it, and the public
    /// key tweaks of its shares.
    pub open spec fn wf(self) -> bool {
        &&& ids_in_range(self.request.operator_recipients@)
        &&& self.rows@.len() <= self.request.leaves@.len()
        &&& self.taken@.len() == self.rows@.len()
        &&& forall|i: int|
            0 <= i < self.rows@.len() ==> views((#[trigger] self.rows@[i])@) == claim_row(
                self.request.leaves@[i].node_id@,
                views(self.request.operator_recipients@),
                self.taken@[i].shares,
                self.taken@[i].tweaks,
            )
        &&& forall|i: int|
            0 <= i < self.taken@.len() ==> pubkey_tweaks(
                views(self.request.operator_recipients@),
                (#[trigger] self.taken@[i]).shares,
            ) == Ok::<Map<Seq<char>, Seq<u8>>, SignerErrorView>(self.taken@[i].tweaks)
    }

    /// Whether a leaf is left.
    pub open spec fn has_leaf(self) -> bool {
        self.rows@.len() < self.request.leaves@.len()
    }

    /// The next leaf.
    pub open spec fn leaf(self) -> LeafToClaim {
        self.request.leaves@[self.rows@.len() as int]
    }

    /// Goes to the next leaf, or to the packages once every leaf is prepared. The tweak leads from
    /// the key that came in to the key that the wallet derives for the leaf.
    pub fn next(self) -> (result: Result<ClaimStep, SignerError>)
        requires
            self.wf(),
        ensures
            match result {
                Ok(ClaimStep::TweakNeeded(step)) => {
                    &&& self.has_leaf()
                    &&& step.run == self
                    &&& step.incoming_key@ == SecretSourceView::Encrypted(
                        self.leaf().leaf_key_ciphertext@,
                    )
                    &&& step.new_signing_key@ == SecretSourceView::Derived(
                        leaf_path(self.leaf().node_id@),
                    )
                },
                Ok(ClaimStep::PackagesNeeded(packages)) => {
                    &&& !self.has_leaf()
                    &&& packages.recipients == self.request.operator_recipients
                    &&& packages.rows == self.rows
                    &&& packages.packages@.len() == 0
                    &&& packages.wf()
                },
                Err(_) => false,
            },
            self.rows@.len() < self.request.leaves@.len() <==> result matches Ok(
                ClaimStep::TweakNeeded(_),
            ),
            result matches Ok(ClaimStep::TweakNeeded(step)) ==> {
                let leaf = self.request.leaves@[self.rows@.len() as int];
                &&& self.rows@.len() < self.request.leaves@.len()
                &&& step.incoming_key matches SecretSource::Encrypted(ciphertext)
                &&& ciphertext@ == leaf.leaf_key_ciphertext@
                &&& step.new_signing_key matches SecretSource::Derived(path)
                &&& path@ == leaf_path(leaf.node_id@)
            },
    {
        let i: usize = self.rows.len();
        if i < self.request.leaves.len() {
            let incoming_key = SecretSource::Encrypted(
                copy_bytes(&self.request.leaves[i].leaf_key_ciphertext),
            );
            return match signing_path(&self.request.leaves[i].node_id) {
                Ok(path) => Ok(
                    ClaimStep::TweakNeeded(
                        ClaimTweakNeeded {
                            run: self,
                            incoming_key,
                            new_signing_key: SecretSource::Derived(path),
                        },
                    ),
                ),
                Err(error) => Err(error),
            };
        }
        assert forall|i: int| 0 <= i < self.rows@.len() implies (#[trigger] self.rows@[i])@.len()
            == self.request.operator_recipients@.len() by {
            assert(views(self.rows@[i]@).len() == self.rows@[i]@.len());
        }
        let request = self.request;
        Ok(
            ClaimStep::PackagesNeeded(
                PackageRun {
                    recipients: request.operator_recipients,
                    rows: self.rows,
                    packages: Vec::new(),
                },
            ),
        )
    }
}

/// Once every leaf is prepared, and where no two operators share an identifier, the bundle of an
/// operator tells it of every leaf, in order, and each time with its own share of the tweak, which
/// is there, and with the public keys of all shares.
pub proof fn operators_learn_every_claim(run: ClaimRun, k: int)
    requires
        run.wf(),
        !run.has_leaf(),
        identifiers(views(run.request.operator_recipients@)).no_duplicates(),
        0 <= k < run.request.operator_recipients@.len(),
    ensures
        ({
            let recipients = views(run.request.operator_recipients@);
            let bundle = bundle_of(identifiers(recipients), table_views(run.rows@), k);
            &&& bundle.len() == run.request.leaves@.len()
            &&& forall|i: int|
                0 <= i < bundle.len() ==> {
                    &&& (#[trigger] bundle[i]).leaf_id == run.request.leaves@[i].node_id@
                    &&& share_of(run.taken@[i].shares, recipients[k].id) is Some
                    &&& bundle[i].secret_share_tweak == Some(
                        sent_share(share_of(run.taken@[i].shares, recipients[k].id)->Some_0),
                    )
                    &&& pubkey_tweaks(recipients, run.taken@[i].shares) == Ok::<
                        Map<Seq<char>, Seq<u8>>,
                        SignerErrorView,
                    >(bundle[i].pubkey_shares_tweak)
                    &&& bundle[i].pubkey_shares_tweak == run.taken@[i].tweaks
                    &&& bundle[i].secret_share_tweak matches Some(sent)
                    &&& sent.secret_share == share_of(
                        run.taken@[i].shares,
                        recipients[k].id,
                    )->Some_0.share
                    &&& sent.proofs == share_of(
                        run.taken@[i].shares,
                        recipients[k].id,
                    )->Some_0.proofs
                }
        }),
{
    let recipients = views(run.request.operator_recipients@);
    let rows = table_views(run.rows@);
    assert forall|i: int| 0 <= i < rows.len() implies #[trigger] rows[i] == claim_row(
        run.request.leaves@[i].node_id@,
        recipients,
        run.taken@[i].shares,
        run.taken@[i].tweaks,
    ) by {
        assert(rows[i] == views(run.rows@[i]@));
    }
    each_operator_gets_its_own(identifiers(recipients), rows, k);
    assert forall|i: int| 0 <= i < run.taken@.len() implies share_of(
        (#[trigger] run.taken@[i]).shares,
        recipients[k].id,
    ) is Some by {
        tweaked_operators_have_shares(recipients, run.taken@[i].shares);
    }
}

/// A leaf that needs its tweak: the secret `incoming_key` minus the secret `new_signing_key`.
pub struct ClaimTweakNeeded {
    pub run: ClaimRun,
    pub incoming_key: SecretSource,
    pub new_signing_key: SecretSource,
}

impl ClaimTweakNeeded {
    /// The question to the low-level signer.
    pub fn question(&self) -> (question: SubtractSecretsRequest)
        ensures
            question.from@ == self.incoming_key@,
            question.subtracted@ == self.new_signing_key@,
    {
        SubtractSecretsRequest {
            from: self.incoming_key.clone(),
            subtracted: self.new_signing_key.clone(),
        }
    }

    /// Takes the tweak, and asks for its shares, one for each operator.
    pub fn difference_found(self, tweak: SecretSource) -> (step: ClaimSharesNeeded)
        ensures
            step.run == self.run,
            step.split@ == (SplitSecretRequestView {
                secret: SecretToSplitView::SecretSource(tweak@),
                threshold: self.run.request.threshold,
                share_count: self.run.request.operator_recipients@.len(),
            }),
            step.split.threshold == self.run.request.threshold,
            step.split.share_count == self.run.request.operator_recipients@.len(),
            step.split.secret matches SecretToSplit::SecretSource(source) && source == tweak,
    {
        let split = SplitSecretRequest {
            secret: SecretToSplit::SecretSource(tweak),
            threshold: self.run.request.threshold,
            share_count: self.run.request.operator_recipients.len(),
        };
        ClaimSharesNeeded { run: self.run, split }
    }
}

/// A leaf that needs the shares of its tweak.
pub struct ClaimSharesNeeded {
    pub run: ClaimRun,
    /// The question to the low-level signer.
    pub split: SplitSecretRequest,
}

impl ClaimSharesNeeded {
    /// Takes the shares, which ends the work on the leaf.
    pub fn shares_made(self, shares: Vec<VerifiableSecretShare>) -> (result: Result<
        ClaimRun,
        SignerError,
    >)
        requires
            self.run.wf(),
            self.run.has_leaf(),
        ensures
            match result {
                Ok(next) => {
                    let tweaks = pubkey_tweaks(
                        views(self.run.request.operator_recipients@),
                        views(shares@),
                    );
                    &&& tweaks is Ok
                    &&& next.wf()
                    &&& next.request == self.run.request
                    &&& next.rows@.len() == self.run.rows@.len() + 1
                    &&& next.rows@.drop_last() == self.run.rows@
                    &&& next.taken@ == self.run.taken@.push(
                        TakenLeaf { shares: views(shares@), tweaks: tweaks->Ok_0 },
                    )
                },
                Err(error) => pubkey_tweaks(
                    views(self.run.request.operator_recipients@),
                    views(shares@),
                ) == Err::<Map<Seq<char>, Seq<u8>>, SignerErrorView>(error@),
            },
            result matches Ok(next) ==> {
                let at = self.run.rows@.len() as int;
                let recipients = self.run.request.operator_recipients@;
                let row = next.rows@[at]@;
                &&& row.len() == recipients.len()
                &&& forall|k: int|
                    0 <= k < recipients.len() ==> {
                        let share = share_of(views(shares@), recipients[k].id as nat)->Some_0;
                        let told = #[trigger] row[k];
                        &&& told.leaf_id@ == next.request.leaves@[at].node_id@
                        &&& told.secret_share_tweak matches Some(sent)
                        &&& sent.secret_share@ == share.share
                        &&& views(sent.proofs@) == share.proofs
                        &&& told.pubkey_shares_tweak@ == next.taken@[at].tweaks
                    }
            },
    {
        let run = self.run;
        let at: usize = run.rows.len();
        let recipients = &run.request.operator_recipients;
        let node_id = &run.request.leaves[at].node_id;
        let tweaks = match pubkey_shares_tweak(recipients, &shares) {
            Ok(tweaks) => tweaks,
            Err(error) => return Err(error),
        };
        let ghost expected = claim_row(
            node_id@,
            views(recipients@),
            views(shares@),
            tweaks@,
        );
        proof {
            tweaked_operators_have_shares(views(recipients@), views(shares@));
        }
        let mut row: Vec<ClaimLeafKeyTweak> = Vec::new();
        let mut k: usize = 0;
        #[verifier::loop_isolation(false)]
        while k < recipients.len()
            invariant
                k <= recipients@.len(),
                row@.len() == k,
                forall|j: int| 0 <= j < k ==> (#[trigger] row@[j])@ == expected[j],
                forall|j: int|
                    0 <= j < k ==> {
                        let share = share_of(views(shares@), recipients@[j].id as nat)->Some_0;
                        let told = #[trigger] row@[j];
                        &&& told.leaf_id@ == node_id@
                        &&& told.secret_share_tweak matches Some(sent)
                        &&& sent.secret_share@ == share.share
                        &&& views(sent.proofs@) == share.proofs
                        &&& told.pubkey_shares_tweak@ == tweaks@
                    },
            decreases recipients@.len() - k,
        {
            assert(share_of(views(shares@), views(recipients@)[k as int].id) is Some);
            let share = match require_share(&shares, recipients[k].id) {
                Ok(share) => share,
                Err(error) => return Err(error),
            };
            let tweak = ClaimLeafKeyTweak {
                leaf_id: node_id.id.clone(),
                secret_share_tweak: Some(proto_secret_share(share)),
                pubkey_shares_tweak: tweaks.clone(),
            };
            assert(tweak@ == expected[k as int]);
            row.push(tweak);
            k = k + 1;
        }
        assert(views(row@) =~= expected);
        let ghost all_taken = run.taken@.push(
            TakenLeaf { shares: views(shares@), tweaks: tweaks@ },
        );
        let mut next = run;
        next.rows.push(row);
        next.taken = Ghost(all_taken);
        assert(next.rows@.drop_last() =~= self.run.rows@);
        Ok(next)
    }
}

/// The claim, once every operator has its package.
pub fn claim_of(run: PackageRun<ClaimLeafKeyTweak>) -> (prepared: PreparedClaim)
    requires
        run.wf(),
        run.packages@.len() == run.recipients@.len(),
    ensures
        prepared.operator_packages == run.packages,
{
    PreparedClaim { operator_packages: run.packages }
}

} // verus!

//! Handing the keys of leaves over to a receiver.

use vstd::prelude::*;
use vstd::utf8::encode_utf8;

use crate::byte_map::{map_of, ByteMap};
use crate::derivation::{leaf_path, signing_path};
use crate::error::{SignerError, SignerErrorView};
use crate::frost::FrostDerivation;
use crate::keys::PublicKey;
use crate::model::{copy_bytes, view_option, view_result, views};
use crate::signer::identity::{
    ecdsa_under_identity, under_identity, EcdsaRequest, EcdsaSignature,
};
use crate::signer::packages::{
    bundle_of, each_operator_gets_its_own, identifiers, package_entries, package_map, table_views,
    KeyTweak, OperatorPackage, PackageRun,
};
use crate::signer::secret::{
    EncryptSecretRequest, SecretSource, SecretSourceView, SparkSignerAdapter,
    SubtractSecretsRequest,
};
use crate::signer::shares::{
    ids_in_range, proto_secret_share, pubkey_shares_tweak, pubkey_tweaks, require_share,
    sent_share, share_of, tweaked_operators_have_shares, OperatorRecipient,
    OperatorRecipientView, SecretShare, SecretShareView, VerifiableSecretShare,
    VerifiableSecretShareView,
};
use crate::tagged::{TaggedField, TaggedFieldView, TaggedInput, TaggedInputView};
use crate::text::{
    decode_hex, hex_bytes, hex_fault, hex_round_trip, hex_text, is_hex, join, remove_dashes,
    without_dashes,
};
use crate::tree::TreeNodeId;

verus! {

/// The id of a transfer.
#[derive(Debug, PartialEq, Eq)]
pub struct TransferId {
    pub id: String,
}

impl View for TransferId {
    type V = Seq<char>;

    open spec fn view(&self) -> Seq<char> {
        self.id@
    }
}

/// The bytes of a transfer id: its hexadecimal digits, with the dashes left out.
pub open spec fn transfer_bytes(id: Seq<char>) -> Result<Seq<u8>, SignerErrorView> {
    let digits = without_dashes(id);
    if is_hex(digits) {
        Ok(hex_bytes(digits))
    } else {
        Err(SignerErrorView::Generic("Failed to decode transfer ID: "@ + hex_fault(digits)))
    }
}

/// The bytes of a transfer id are those that its digits encode, wherever dashes stand among them.
pub proof fn dashes_do_not_change_a_transfer(id: Seq<char>, other: Seq<char>, bytes: Seq<u8>)
    ensures
        id.filter(|c: char| c != '-') == other.filter(|c: char| c != '-') ==> transfer_bytes(id)
            == transfer_bytes(other),
        id.filter(|c: char| c != '-') == hex_text(bytes) ==> transfer_bytes(id) == Ok::<
            Seq<u8>,
            SignerErrorView,
        >(bytes),
        transfer_bytes(id) is Ok <==> is_hex(id.filter(|c: char| c != '-')),
{
    hex_round_trip(bytes);
}

/// The bytes of a transfer id.
pub fn transfer_id_bytes(transfer_id: &TransferId) -> (result: Result<Vec<u8>, SignerError>)
    ensures
        view_result(result) == transfer_bytes(transfer_id@),
        result is Ok <==> is_hex(transfer_id.id@.filter(|c: char| c != '-')),
        result matches Ok(bytes) ==> bytes@ == hex_bytes(
            transfer_id.id@.filter(|c: char| c != '-'),
        ),
{
    let digits = remove_dashes(transfer_id.id.as_str());
    match decode_hex(digits.as_str()) {
        Ok(bytes) => Ok(bytes),
        Err(fault) => Err(
            SignerError::Generic(join("Failed to decode transfer ID: ", fault.as_str())),
        ),
    }
}

/// A secret to split among operators.
#[derive(Debug, PartialEq, Eq)]
pub enum SecretToSplit {
    SecretSource(SecretSource),
    Preimage(Vec<u8>),
}

/// The view of a `SecretToSplit`.
pub enum SecretToSplitView {
    SecretSource(SecretSourceView),
    Preimage(Seq<u8>),
}

impl View for SecretToSplit {
    type V = SecretToSplitView;

    open spec fn view(&self) -> SecretToSplitView {
        match self {
            SecretToSplit::SecretSource(source) => SecretToSplitView::SecretSource(source@),
            SecretToSplit::Preimage(preimage) => SecretToSplitView::Preimage(preimage@),
        }
    }
}

/// Asks the low-level signer to split a secret, so that `threshold` of the shares give it back.
#[derive(Debug, PartialEq, Eq)]
pub struct SplitSecretRequest {
    pub secret: SecretToSplit,
    pub threshold: u32,
    pub share_count: usize,
}

/// The view of a `SplitSecretRequest`.
pub struct SplitSecretRequestView {
    pub secret: SecretToSplitView,
    pub threshold: u32,
    pub share_count: nat,
}

impl View for SplitSecretRequest {
    type V = SplitSecretRequestView;

    open spec fn view(&self) -> SplitSecretRequestView {
        SplitSecretRequestView {
            secret: self.secret@,
            threshold: self.threshold,
            share_count: self.share_count as nat,
        }
    }
}

/// A leaf to hand over, and the id under which its new key is derived.
#[derive(Debug, PartialEq, Eq)]
pub struct LeafToTransfer {
    pub node_id: TreeNodeId,
    pub new_leaf_id: TreeNodeId,
}

/// Asks for everything that a transfer of leaves needs to be signed and encrypted.
#[derive(Debug, PartialEq, Eq)]
pub struct PrepareTransferRequest {
    pub transfer_id: TransferId,
    pub receiver_public_key: PublicKey,
    pub leaves: Vec<LeafToTransfer>,
    pub operator_recipients: Vec<OperatorRecipient>,
    pub threshold: u32,
}

/// The new key of a leaf in a transfer.
#[derive(Debug, PartialEq, Eq)]
pub struct NewLeafKey {
    pub node_id: TreeNodeId,
    pub new_signing_public_key: PublicKey,
}

/// The view of a `NewLeafKey`.
pub struct NewLeafKeyView {
    pub node_id: Seq<char>,
    pub new_signing_public_key: Seq<u8>,
}

impl View for NewLeafKey {
    type V = NewLeafKeyView;

    open spec fn view(&self) -> NewLeafKeyView {
        NewLeafKeyView {
            node_id: self.node_id@,
            new_signing_public_key: self.new_signing_public_key@,
        }
    }
}

/// What an operator is told of a leaf that is handed over.
#[derive(Debug, PartialEq, Eq)]
pub struct SendLeafKeyTweak {
    pub leaf_id: String,
    pub secret_share_tweak: Option<SecretShare>,
    pub pubkey_shares_tweak: ByteMap,
    pub secret_cipher: Vec<u8>,
    pub signature: Vec<u8>,
    pub refund_signature: Vec<u8>,
    pub direct_refund_signature: Vec<u8>,
    pub direct_from_cpfp_refund_signature: Vec<u8>,
}

/// The view of a `SendLeafKeyTweak`.
pub struct SendLeafKeyTweakView {
    pub leaf_id: Seq<char>,
    pub secret_share_tweak: Option<SecretShareView>,
    pub pubkey_shares_tweak: Map<Seq<char>, Seq<u8>>,
    pub secret_cipher: Seq<u8>,
    pub signature: Seq<u8>,
    pub refund_signature: Seq<u8>,
    pub direct_refund_signature: Seq<u8>,
    pub direct_from_cpfp_refund_signature: Seq<u8>,
}

impl View for SendLeafKeyTweak {
    type V = SendLeafKeyTweakView;

    open spec fn view(&self) -> SendLeafKeyTweakView {
        SendLeafKeyTweakView {
            leaf_id: self.leaf_id@,
            secret_share_tweak: view_option(self.secret_share_tweak),
            pubkey_shares_tweak: self.pubkey_shares_tweak@,
            secret_cipher: self.secret_cipher@,
            signature: self.signature@,
            refund_signature: self.refund_signature@,
            direct_refund_signature: self.direct_refund_signature@,
            direct_from_cpfp_refund_signature: self.direct_from_cpfp_refund_signature@,
        }
    }
}

impl KeyTweak for SendLeafKeyTweak {
    fn copy(&self) -> (copy: Self) {
        SendLeafKeyTweak {
            leaf_id: self.leaf_id.clone(),
            secret_share_tweak: match &self.secret_share_tweak {
                Some(share) => Some(share.clone()),
                None => None,
            },
            pubkey_shares_tweak: self.pubkey_shares_tweak.clone(),
            secret_cipher: copy_bytes(&self.secret_cipher),
            signature: copy_bytes(&self.signature),
            refund_signature: copy_bytes(&self.refund_signature),
            direct_refund_signature: copy_bytes(&self.direct_refund_signature),
            direct_from_cpfp_refund_signature: copy_bytes(&self.direct_from_cpfp_refund_signature),
        }
    }
}

/// A transfer that is ready to be sent.
#[derive(Debug, PartialEq, Eq)]
pub struct PreparedTransfer {
    pub operator_packages: Vec<OperatorPackage>,
    pub new_leaf_keys: Vec<NewLeafKey>,
    pub transfer_user_signature: EcdsaSignature,
}

/// What the wallet signs for a leaf that it hands over: the id of the leaf, the id of the
/// transfer, and the new key as it is encrypted for the receiver.
pub open spec fn leaf_payload(leaf_id: Seq<char>, transfer_id: Seq<char>, cipher: Seq<u8>) -> Seq<
    u8,
> {
    encode_utf8(leaf_id) + encode_utf8(transfer_id) + cipher
}

/// What each operator is told of a leaf: its own share of the tweak, and what all operators share.
pub open spec fn send_row(
    leaf_id: Seq<char>,
    recipients: Seq<OperatorRecipientView>,
    shares: Seq<VerifiableSecretShareView>,
    tweaks: Map<Seq<char>, Seq<u8>>,
    cipher: Seq<u8>,
    signature: Seq<u8>,
) -> Seq<SendLeafKeyTweakView> {
    Seq::new(
        recipients.len(),
        |k: int|
            SendLeafKeyTweakView {
                leaf_id,
                secret_share_tweak: Some(
                    sent_share(share_of(shares, recipients[k].id)->Some_0),
                ),
                pubkey_shares_tweak: tweaks,
                secret_cipher: cipher,
                signature,
                refund_signature: Seq::empty(),
                direct_refund_signature: Seq::empty(),
                direct_from_cpfp_refund_signature: Seq::empty(),
            },
    )
}

/// What the work on a leaf came to: the shares of its tweak, their public keys, its new secret as
/// it is encrypted for the receiver, and the wallet's signature.
pub struct MadeLeaf {
    pub shares: Seq<VerifiableSecretShareView>,
    pub tweaks: Map<Seq<char>, Seq<u8>>,
    pub cipher: Seq<u8>,
    pub signature: Seq<u8>,
}

/// What each operator is told of a leaf, given what the work on it came to.
pub open spec fn made_row(
    leaf_id: Seq<char>,
    recipients: Seq<OperatorRecipientView>,
    made: MadeLeaf,
) -> Seq<SendLeafKeyTweakView> {
    send_row(leaf_id, recipients, made.shares, made.tweaks, made.cipher, made.signature)
}

/// What the wallet signs for a transfer as a whole: its id, and the package of every operator.
pub open spec fn transfer_input(
    id: Seq<u8>,
    packages: Map<Seq<char>, Seq<u8>>,
) -> TaggedInputView {
    TaggedInputView {
        tags: seq!["spark"@, "transfer"@, "signing payload"@],
        fields: seq![TaggedFieldView::Bytes(id), TaggedFieldView::ByteMap(packages)],
    }
}

impl<S, K> SparkSignerAdapter<S, K> {
    /// Starts to prepare a transfer.
    pub fn prepare_transfer(&self, request: PrepareTransferRequest) -> (run: TransferRun)
        requires
            ids_in_range(request.operator_recipients@),
        ensures
            run.wf(),
            run.request == request,
            run.rows@.len() == 0,
    {
        TransferRun {
            request,
            new_leaf_keys: Vec::new(),
            rows: Vec::new(),
            made: Ghost(Seq::empty()),
        }
    }
}

/// A transfer some of whose leaves are prepared.
pub struct TransferRun {
    pub request: PrepareTransferRequest,
    pub new_leaf_keys: Vec<NewLeafKey>,
    /// A row for each prepared leaf, and in it what each operator is told.
    pub rows: Vec<Vec<SendLeafKeyTweak>>,
    /// What the work on each prepared leaf came to.
    pub made: Ghost<Seq<MadeLeaf>>,
}

/// What preparing a transfer needs next.
pub enum TransferStep {
    /// The secret of the next leaf.
    SecretNeeded(TransferRun),
    /// The packages of the operators.
    PackagesNeeded(TransferPackages),
}

impl TransferRun {
    /// Whether every prepared leaf has a new key, a row with what each operator is told of it, and
    /// the public key tweaks of its shares.
    pub open spec fn wf(self) -> bool {
        &&& ids_in_range(self.request.operator_recipients@)
        &&& self.rows@.len() <= self.request.leaves@.len()
        &&& self.new_leaf_keys@.len() == self.rows@.len()
        &&& self.made@.len() == self.rows@.len()
        &&& forall|i: int|
            0 <= i < self.rows@.len() ==> views((#[trigger] self.rows@[i])@) == made_row(
                self.request.leaves@[i].node_id@,
                views(self.request.operator_recipients@),
                self.made@[i],
            )
        &&& forall|i: int|
            0 <= i < self.made@.len() ==> pubkey_tweaks(
                views(self.request.operator_recipients@),
                (#[trigger] self.made@[i]).shares,
            ) == Ok::<Map<Seq<char>, Seq<u8>>, SignerErrorView>(self.made@[i].tweaks)
        &&& forall|i: int|
            0 <= i < self.new_leaf_keys@.len() ==> (#[trigger] self.new_leaf_keys@[i]).node_id@
                == self.request.leaves@[i].node_id@
    }

    /// Whether a leaf is left.
    pub open spec fn has_leaf(self) -> bool {
        self.rows@.len() < self.request.leaves@.len()
    }

    /// The next leaf.
    pub open spec fn leaf(self) -> LeafToTransfer {
        self.request.leaves@[self.rows@.len() as int]
    }

    /// Goes to the next leaf, or to the packages once every leaf is prepared.
    pub fn next(self) -> (step: TransferStep)
        requires
            self.wf(),
        ensures
            match step {
                TransferStep::SecretNeeded(run) => self.has_leaf() && run == self,
                TransferStep::PackagesNeeded(packages) => {
                    &&& !self.has_leaf()
                    &&& packages.transfer_id == self.request.transfer_id
                    &&& packages.new_leaf_keys == self.new_leaf_keys
                    &&& packages.run.recipients == self.request.operator_recipients
                    &&& packages.run.rows == self.rows
                    &&& packages.run.packages@.len() == 0
                    &&& packages.run.wf()
                },
            },
            step is SecretNeeded <==> self.rows@.len() < self.request.leaves@.len(),
    {
        if self.rows.len() < self.request.leaves.len() {
            return TransferStep::SecretNeeded(self);
        }
        assert forall|i: int| 0 <= i < self.rows@.len() implies (#[trigger] self.rows@[i])@.len()
            == self.request.operator_recipients@.len() by {
            assert(views(self.rows@[i]@).len() == self.rows@[i]@.len());
        }
        let request = self.request;
        TransferStep::PackagesNeeded(
            TransferPackages {
                transfer_id: request.transfer_id,
                new_leaf_keys: self.new_leaf_keys,
                run: PackageRun {
                    recipients: request.operator_recipients,
                    rows: self.rows,
                    packages: Vec::new(),
                },
            },
        )
    }

    /// The key whose secret is needed.
    pub fn derivation(&self) -> (derivation: FrostDerivation)
        requires
            self.has_leaf(),
        ensures
            derivation == (FrostDerivation::SigningLeaf { leaf_id: self.leaf().node_id }),
            derivation matches FrostDerivation::SigningLeaf { leaf_id } && leaf_id
                == self.request.leaves@[self.rows@.len() as int].node_id,
    {
        let i: usize = self.rows.len();
        FrostDerivation::SigningLeaf { leaf_id: self.request.leaves[i].node_id.clone() }
    }

    /// Takes the secret of the leaf, and asks for the public key of its new secret.
    pub fn secret_found(self, signing_key: SecretSource) -> (result: Result<
        NewKeyNeeded,
        SignerError,
    >)
        requires
            self.has_leaf(),
        ensures
            match result {
                Ok(step) => {
                    &&& step.run == self
                    &&& step.signing_key == signing_key
                    &&& step.new_signing_key@ == SecretSourceView::Derived(
                        leaf_path(self.leaf().new_leaf_id@),
                    )
                },
                Err(_) => false,
            },
            result matches Ok(step) && step.new_signing_key matches SecretSource::Derived(path)
                && path@ == leaf_path(
                self.request.leaves@[self.rows@.len() as int].new_leaf_id@,
            ),
    {
        let i: usize = self.rows.len();
        match signing_path(&self.request.leaves[i].new_leaf_id) {
            Ok(path) => Ok(
                NewKeyNeeded {
                    run: self,
                    signing_key,
                    new_signing_key: SecretSource::Derived(path),
                },
            ),
            Err(error) => Err(error),
        }
    }
}

/// Once every leaf is prepared, and where no two operators share an identifier, the bundle of an
/// operator tells it of every leaf, in order, and each time with its own share of the tweak, which
/// is there, and with the public keys of all shares.
pub proof fn operators_learn_every_leaf(run: TransferRun, k: int)
    requires
        run.wf(),
        !run.has_leaf(),
        identifiers(views(run.request.operator_recipients@)).no_duplicates(),
        0 <= k < run.request.operator_recipients@.len(),
    ensures
        ({
            let recipients = views(run.request.operator_recipients@);
            let bundle = bundle_of(identifiers(recipients), table_views(run.rows@), k);
            &&& bundle.len() == run.request.leaves@.len()
            &&& forall|i: int|
                0 <= i < bundle.len() ==> {
                    &&& (#[trigger] bundle[i]).leaf_id == run.request.leaves@[i].node_id@
                    &&& share_of(run.made@[i].shares, recipients[k].id) is Some
                    &&& bundle[i].secret_share_tweak == Some(
                        sent_share(share_of(run.made@[i].shares, recipients[k].id)->Some_0),
                    )
                    &&& pubkey_tweaks(recipients, run.made@[i].shares) == Ok::<
                        Map<Seq<char>, Seq<u8>>,
                        SignerErrorView,
                    >(bundle[i].pubkey_shares_tweak)
                    &&& bundle[i].pubkey_shares_tweak == run.made@[i].tweaks
                    &&& bundle[i].secret_cipher == run.made@[i].cipher
                    &&& bundle[i].signature == run.made@[i].signature
                    &&& bundle[i].secret_share_tweak matches Some(sent)
                    &&& sent.secret_share == share_of(
                        run.made@[i].shares,
                        recipients[k].id,
                    )->Some_0.share
                    &&& sent.proofs == share_of(
                        run.made@[i].shares,
                        recipients[k].id,
                    )->Some_0.proofs
                    &&& bundle[i].refund_signature.len() == 0
                    &&& bundle[i].direct_refund_signature.len() == 0
                    &&& bundle[i].direct_from_cpfp_refund_signature.len() == 0
                }
        }),
{
    let recipients = views(run.request.operator_recipients@);
    let rows = table_views(run.rows@);
    assert forall|i: int| 0 <= i < rows.len() implies #[trigger] rows[i] == made_row(
        run.request.leaves@[i].node_id@,
        recipients,
        run.made@[i],
    ) by {
        assert(rows[i] == views(run.rows@[i]@));
    }
    each_operator_gets_its_own(identifiers(recipients), rows, k);
    assert forall|i: int| 0 <= i < run.made@.len() implies share_of(
        (#[trigger] run.made@[i]).shares,
        recipients[k].id,
    ) is Some by {
        tweaked_operators_have_shares(recipients, run.made@[i].shares);
    }
}

/// A leaf that needs the public key of `new_signing_key`.
pub struct NewKeyNeeded {
    pub run: TransferRun,
    pub signing_key: SecretSource,
    pub new_signing_key: SecretSource,
}

impl NewKeyNeeded {
    /// The secret whose public key is needed.
    pub fn secret(&self) -> (secret: &SecretSource)
        ensures
            *secret == self.new_signing_key,
    {
        &self.new_signing_key
    }

    /// Takes the public key, and asks for the tweak.
    pub fn public_key_found(self, key: PublicKey) -> (step: TransferTweakNeeded)
        ensures
            step.run == self.run,
            step.signing_key == self.signing_key,
            step.new_signing_key == self.new_signing_key,
            step.new_public_key == key,
    {
        TransferTweakNeeded {
            run: self.run,
            signing_key: self.signing_key,
            new_signing_key: self.new_signing_key,
            new_public_key: key,
        }
    }
}

/// A leaf that needs its tweak: the secret `signing_key` minus the secret `new_signing_key`.
pub struct TransferTweakNeeded {
    pub run: TransferRun,
    pub signing_key: SecretSource,
    pub new_signing_key: SecretSource,
    pub new_public_key: PublicKey,
}

impl TransferTweakNeeded {
    /// The question to the low-level signer.
    pub fn question(&self) -> (question: SubtractSecretsRequest)
        ensures
            question.from@ == self.signing_key@,
            question.subtracted@ == self.new_signing_key@,
    {
        SubtractSecretsRequest {
            from: self.signing_key.clone(),
            subtracted: self.new_signing_key.clone(),
        }
    }

    /// Takes the tweak, and asks for its shares, one for each operator.
    pub fn difference_found(self, tweak: SecretSource) -> (step: TransferSharesNeeded)
        ensures
            step.run == self.run,
            step.new_signing_key == self.new_signing_key,
            step.new_public_key == self.new_public_key,
            step.split@ == (SplitSecretRequestView {
                secret: SecretToSplitView::SecretSource(tweak@),
                threshold: self.run.request.threshold,
                share_count: self.run.request.operator_recipients@.len(),
            }),
            step.split.threshold == self.run.request.threshold,
            step.split.share_count == self.run.request.operator_recipients@.len(),
            step.split.secret matches SecretToSplit::SecretSource(source) && source == tweak,
    {
        let split = SplitSecretRequest {
            secret: SecretToSplit::SecretSource(tweak),
            threshold: self.run.request.threshold,
            share_count: self.run.request.operator_recipients.len(),
        };
        TransferSharesNeeded {
            run: self.run,
            new_signing_key: self.new_signing_key,
            new_public_key: self.new_public_key,
            split,
        }
    }
}

/// A leaf that needs the shares of its tweak.
pub struct TransferSharesNeeded {
    pub run: TransferRun,
    pub new_signing_key: SecretSource,
    pub new_public_key: PublicKey,
    /// The question to the low-level signer.
    pub split: SplitSecretRequest,
}

impl TransferSharesNeeded {
    /// Takes the shares, and asks for the new secret encrypted for the receiver.
    pub fn shares_made(self, shares: Vec<VerifiableSecretShare>) -> (result: Result<
        CipherNeeded,
        SignerError,
    >)
        requires
            self.run.wf(),
            self.run.has_leaf(),
        ensures
            match result {
                Ok(step) => {
                    &&& step.wf()
                    &&& step.run == self.run
                    &&& step.new_signing_key == self.new_signing_key
                    &&& step.new_public_key == self.new_public_key
                    &&& step.shares == shares
                },
                Err(error) => pubkey_tweaks(
                    views(self.run.request.operator_recipients@),
                    views(shares@),
                ) == Err::<Map<Seq<char>, Seq<u8>>, SignerErrorView>(error@),
            },
    {
        match pubkey_shares_tweak(&self.run.request.operator_recipients, &shares) {
            Ok(tweaks) => Ok(
                CipherNeeded {
                    run: self.run,
                    new_signing_key: self.new_signing_key,
                    new_public_key: self.new_public_key,
                    shares,
                    tweaks,
                },
            ),
            Err(error) => Err(error),
        }
    }
}

/// A leaf that needs `new_signing_key` encrypted for the receiver of the transfer.
pub struct CipherNeeded {
    pub run: TransferRun,
    pub new_signing_key: SecretSource,
    pub new_public_key: PublicKey,
    pub shares: Vec<VerifiableSecretShare>,
    /// The public key tweaks of all operators.
    pub tweaks: ByteMap,
}

impl CipherNeeded {
    /// Whether the tweaks are those of the shares.
    pub open spec fn wf(self) -> bool {
        &&& self.run.wf()
        &&& self.run.has_leaf()
        &&& pubkey_tweaks(
            views(self.run.request.operator_recipients@),
            views(self.shares@),
        ) == Ok::<Map<Seq<char>, Seq<u8>>, SignerErrorView>(self.tweaks@)
    }

    /// The question to the low-level signer: the new secret, for the receiver of the transfer.
    pub fn question(&self) -> (question: EncryptSecretRequest)
        ensures
            question.secret@ == self.new_signing_key@,
            question.receiver == self.run.request.receiver_public_key,
    {
        EncryptSecretRequest {
            secret: self.new_signing_key.clone(),
            receiver: self.run.request.receiver_public_key,
        }
    }

    /// Takes the ciphertext, and asks for the wallet's signature of the leaf.
    pub fn cipher_made(self, cipher: Vec<u8>) -> (result: Result<LeafSignatureNeeded, SignerError>)
        requires
            self.wf(),
        ensures
            match result {
                Ok(step) => {
                    &&& step.leaf == self
                    &&& step.cipher == cipher
                    &&& step.signing@ == under_identity(
                        leaf_payload(
                            self.run.leaf().node_id@,
                            self.run.request.transfer_id@,
                            cipher@,
                        ),
                    )
                },
                Err(_) => false,
            },
            result matches Ok(step) && step.signing.path.children@ == seq![0x8000_0000u32]
                && step.signing.message@ == encode_utf8(
                self.run.request.leaves@[self.run.rows@.len() as int].node_id.id@,
            ) + encode_utf8(self.run.request.transfer_id.id@) + cipher@,
    {
        let i: usize = self.run.rows.len();
        let mut payload: Vec<u8> = Vec::new();
        payload.extend_from_slice(self.run.request.leaves[i].node_id.id.as_str().as_bytes());
        payload.extend_from_slice(self.run.request.transfer_id.id.as_str().as_bytes());
        payload.extend_from_slice(cipher.as_slice());
        assert(payload@ =~= leaf_payload(
            self.run.leaf().node_id@,
            self.run.request.transfer_id@,
            cipher@,
        ));
        match ecdsa_under_identity(payload) {
            Ok(signing) => Ok(LeafSignatureNeeded { leaf: self, cipher, signing }),
            Err(error) => Err(error),
        }
    }
}

/// A leaf that needs the wallet's signature.
pub struct LeafSignatureNeeded {
    pub leaf: CipherNeeded,
    pub cipher: Vec<u8>,
    /// The question to the low-level signer.
    pub signing: EcdsaRequest,
}

impl LeafSignatureNeeded {
    /// Takes the signature, which ends the work on the leaf.
    pub fn signature_made(self, signature: EcdsaSignature) -> (result: Result<
        TransferRun,
        SignerError,
    >)
        requires
            self.leaf.wf(),
        ensures
            match result {
                Ok(next) => {
                    &&& next.wf()
                    &&& next.request == self.leaf.run.request
                    &&& next.rows@.len() == self.leaf.run.rows@.len() + 1
                    &&& next.rows@.drop_last() == self.leaf.run.rows@
                    &&& next.made@ == self.leaf.run.made@.push(
                        MadeLeaf {
                            shares: views(self.leaf.shares@),
                            tweaks: self.leaf.tweaks@,
                            cipher: self.cipher@,
                            signature: signature@,
                        },
                    )
                    &&& views(next.new_leaf_keys@) == views(self.leaf.run.new_leaf_keys@).push(
                        NewLeafKeyView {
                            node_id: self.leaf.run.leaf().node_id@,
                            new_signing_public_key: self.leaf.new_public_key@,
                        },
                    )
                },
                Err(_) => false,
            },
            result matches Ok(next) && {
                let at = self.leaf.run.rows@.len() as int;
                let recipients = self.leaf.run.request.operator_recipients@;
                let row = next.rows@[at]@;
                &&& next.new_leaf_keys@.len() == at + 1
                &&& next.new_leaf_keys@[at].node_id@ == next.request.leaves@[at].node_id@
                &&& next.new_leaf_keys@[at].new_signing_public_key == self.leaf.new_public_key
                &&& row.len() == recipients.len()
                &&& forall|k: int|
                    0 <= k < recipients.len() ==> {
                        let share = share_of(
                            views(self.leaf.shares@),
                            recipients[k].id as nat,
                        )->Some_0;
                        let told = #[trigger] row[k];
                        &&& told.leaf_id@ == next.request.leaves@[at].node_id@
                        &&& told.secret_share_tweak matches Some(sent)
                        &&& sent.secret_share@ == share.share
                        &&& views(sent.proofs@) == share.proofs
                        &&& told.pubkey_shares_tweak@ == self.leaf.tweaks@
                        &&& told.secret_cipher@ == self.cipher@
                        &&& told.signature@ == signature.compact@
                        &&& told.refund_signature@.len() == 0
                        &&& told.direct_refund_signature@.len() == 0
                        &&& told.direct_from_cpfp_refund_signature@.len() == 0
                    }
            },
    {
        let leaf = self.leaf;
        let at: usize = leaf.run.rows.len();
        let recipients = &leaf.run.request.operator_recipients;
        let node_id = &leaf.run.request.leaves[at].node_id;
        let ghost made = MadeLeaf {
            shares: views(leaf.shares@),
            tweaks: leaf.tweaks@,
            cipher: self.cipher@,
            signature: signature@,
        };
        let ghost expected = made_row(node_id@, views(recipients@), made);
        proof {
            tweaked_operators_have_shares(views(recipients@), views(leaf.shares@));
        }
        let mut row: Vec<SendLeafKeyTweak> = Vec::new();
        let mut k: usize = 0;
        #[verifier::loop_isolation(false)]
        while k < recipients.len()
            invariant
                k <= recipients@.len(),
                row@.len() == k,
                forall|j: int| 0 <= j < k ==> (#[trigger] row@[j])@ == expected[j],
                forall|j: int|
                    0 <= j < k ==> {
                        let share = share_of(views(leaf.shares@), recipients@[j].id as nat)->Some_0;
                        let told = #[trigger] row@[j];
                        &&& told.leaf_id@ == node_id@
                        &&& told.secret_share_tweak matches Some(sent)
                        &&& sent.secret_share@ == share.share
                        &&& views(sent.proofs@) == share.proofs
                        &&& told.pubkey_shares_tweak@ == leaf.tweaks@
                        &&& told.secret_cipher@ == self.cipher@
                        &&& told.signature@ == signature.compact@
                        &&& told.refund_signature@.len() == 0
                        &&& told.direct_refund_signature@.len() == 0
                        &&& told.direct_from_cpfp_refund_signature@.len() == 0
                    },
            decreases recipients@.len() - k,
        {
            assert(share_of(views(leaf.shares@), views(recipients@)[k as int].id) is Some);
            let share = match require_share(&leaf.shares, recipients[k].id) {
                Ok(share) => share,
                Err(error) => return Err(error),
            };
            let tweak = SendLeafKeyTweak {
                leaf_id: node_id.id.clone(),
                secret_share_tweak: Some(proto_secret_share(share)),
                pubkey_shares_tweak: leaf.tweaks.clone(),
                secret_cipher: copy_bytes(&self.cipher),
                signature: signature.serialize_compact(),
                refund_signature: Vec::new(),
                direct_refund_signature: Vec::new(),
                direct_from_cpfp_refund_signature: Vec::new(),
            };
            assert(tweak@.refund_signature =~= Seq::empty());
            assert(tweak@.direct_refund_signature =~= Seq::empty());
            assert(tweak@.direct_from_cpfp_refund_signature =~= Seq::empty());
            assert(tweak@ == expected[k as int]);
            row.push(tweak);
            k = k + 1;
        }
        assert(views(row@) =~= expected);
        let new_key = NewLeafKey {
            node_id: node_id.clone(),
            new_signing_public_key: leaf.new_public_key,
        };
        let ghost added = new_key@;
        let ghost all_made = leaf.run.made@.push(made);
        let mut next = leaf.run;
        next.new_leaf_keys.push(new_key);
        next.rows.push(row);
        next.made = Ghost(all_made);
        assert(next.rows@.drop_last() =~= self.leaf.run.rows@);
        assert(views(next.new_leaf_keys@) =~= views(self.leaf.run.new_leaf_keys@).push(added));
        Ok(next)
    }
}

/// A transfer whose operators get their packages.
pub struct TransferPackages {
    pub transfer_id: TransferId,
    pub new_leaf_keys: Vec<NewLeafKey>,
    pub run: PackageRun<SendLeafKeyTweak>,
}

impl TransferPackages {
    /// Once every operator has its package, asks for the message that the wallet signs for the
    /// whole transfer.
    pub fn finish(self) -> (result: Result<PayloadNeeded, SignerError>)
        requires
            self.run.wf(),
            self.run.packages@.len() == self.run.recipients@.len(),
        ensures
            match result {
                Ok(step) => {
                    &&& transfer_bytes(self.transfer_id@) is Ok
                    &&& step.input@ == transfer_input(
                        transfer_bytes(self.transfer_id@)->Ok_0,
                        map_of(package_entries(views(self.run.packages@))),
                    )
                    &&& step.operator_packages == self.run.packages
                    &&& step.new_leaf_keys == self.new_leaf_keys
                },
                Err(error) => transfer_bytes(self.transfer_id@) == Err::<Seq<u8>, SignerErrorView>(
                    error@,
                ),
            },
            result is Ok <==> is_hex(self.transfer_id.id@.filter(|c: char| c != '-')),
            result matches Ok(step) ==> {
                &&& step.input.tags@.len() == 3
                &&& step.input.tags@[0]@ == "spark"@
                &&& step.input.tags@[1]@ == "transfer"@
                &&& step.input.tags@[2]@ == "signing payload"@
                &&& step.input.fields@.len() == 2
                &&& step.input.fields@[0] matches TaggedField::Bytes(id)
                &&& id@ == hex_bytes(self.transfer_id.id@.filter(|c: char| c != '-'))
                &&& step.input.fields@[1] matches TaggedField::ByteMap(packages)
                &&& forall|k: int|
                    0 <= k < self.run.packages@.len() && (forall|j: int|
                        k < j < self.run.packages@.len() ==> (
                        #[trigger] self.run.packages@[j]).operator_identifier@
                            != self.run.packages@[k].operator_identifier@)
                        ==> packages@.contains_pair(
                        hex_text((#[trigger] self.run.packages@[k]).operator_identifier@),
                        self.run.packages@[k].encrypted_package@,
                    )
                &&& forall|name: Seq<char>| #[trigger]
                    packages@.contains_key(name) ==> exists|k: int|
                        0 <= k < self.run.packages@.len() && hex_text(
                            (#[trigger] self.run.packages@[k]).operator_identifier@,
                        ) == name
            },
    {
        let packages = package_map(&self.run.packages);
        let id = match transfer_id_bytes(&self.transfer_id) {
            Ok(id) => id,
            Err(error) => return Err(error),
        };
        let ghost expected = transfer_input(id@, packages@);
        let tags = vec!["spark".to_string(), "transfer".to_string(), "signing payload".to_string()];
        let fields = vec![TaggedField::Bytes(id), TaggedField::ByteMap(packages)];
        assert(views(tags@) =~= expected.tags);
        assert(views(fields@) =~= expected.fields);
        Ok(
            PayloadNeeded {
                operator_packages: self.run.packages,
                new_leaf_keys: self.new_leaf_keys,
                input: TaggedInput { tags, fields },
            },
        )
    }
}

/// A transfer that needs the tagged message of `input`.
pub struct PayloadNeeded {
    pub operator_packages: Vec<OperatorPackage>,
    pub new_leaf_keys: Vec<NewLeafKey>,
    pub input: TaggedInput,
}

impl PayloadNeeded {
    /// Takes the message, and asks for the wallet's signature of it.
    pub fn message_made(self, message: Vec<u8>) -> (result: Result<
        UserSignatureNeeded,
        SignerError,
    >)
        ensures
            match result {
                Ok(step) => {
                    &&& step.operator_packages == self.operator_packages
                    &&& step.new_leaf_keys == self.new_leaf_keys
                    &&& step.signing@ == under_identity(message@)
                },
                Err(_) => false,
            },
            result matches Ok(step) && step.signing.path.children@ == seq![0x8000_0000u32]
                && step.signing.message@ == message@,
    {
        match ecdsa_under_identity(message) {
            Ok(signing) => Ok(
                UserSignatureNeeded {
                    operator_packages: self.operator_packages,
                    new_leaf_keys: self.new_leaf_keys,
                    signing,
                },
            ),
            Err(error) => Err(error),
        }
    }
}

/// A transfer that needs the wallet's signature.
pub struct UserSignatureNeeded {
    pub operator_packages: Vec<OperatorPackage>,
    pub new_leaf_keys: Vec<NewLeafKey>,
    /// The question to the low-level signer.
    pub signing: EcdsaRequest,
}

impl UserSignatureNeeded {
    /// Takes the signature: the transfer is ready.
    pub fn signature_made(self, signature: EcdsaSignature) -> (prepared: PreparedTransfer)
        ensures
            prepared.operator_packages == self.operator_packages,
            prepared.new_leaf_keys == self.new_leaf_keys,
            prepared.transfer_user_signature == signature,
    {
        PreparedTransfer {
            operator_packages: self.operator_packages,
            new_leaf_keys: self.new_leaf_keys,
            transfer_user_signature: signature,
        }
    }
}

/// What the wallet signs for a leaf starts with the leaf's id, goes on with the transfer's, and
/// ends with the new key as it was encrypted, each of them whole. So the signature of a leaf vouches
/// for just one encrypted key in a transfer.
pub proof fn payload_names_leaf_transfer_and_key(
    leaf_id: Seq<char>,
    transfer_id: Seq<char>,
    cipher: Seq<u8>,
    other: Seq<u8>,
)
    ensures
        ({
            let payload = leaf_payload(leaf_id, transfer_id, cipher);
            let first = encode_utf8(leaf_id).len() as int;
            let second = first + encode_utf8(transfer_id).len();
            &&& payload.len() == second + cipher.len()
            &&& payload.take(first) == encode_utf8(leaf_id)
            &&& payload.subrange(first, second) == encode_utf8(transfer_id)
            &&& payload.skip(second) == cipher
        }),
        leaf_payload(leaf_id, transfer_id, cipher) == leaf_payload(leaf_id, transfer_id, other)
            <==> cipher == other,
{
    let first = encode_utf8(leaf_id).len() as int;
    let second = first + encode_utf8(transfer_id).len();
    let payload = leaf_payload(leaf_id, transfer_id, cipher);
    assert(payload.take(first) =~= encode_utf8(leaf_id));
    assert(payload.subrange(first, second) =~= encode_utf8(transfer_id));
    assert(payload.skip(second) =~= cipher);
    assert(leaf_payload(leaf_id, transfer_id, other).skip(second) =~= other);
}

/// The wallet's signature of a transfer covers the id and the packages of all operators: what is
/// signed differs where the id or any package does.
pub proof fn transfer_signature_covers_id_and_packages(
    id: Seq<u8>,
    packages: Map<Seq<char>, Seq<u8>>,
    other_id: Seq<u8>,
    other_packages: Map<Seq<char>, Seq<u8>>,
)
    ensures
        transfer_input(id, packages) == transfer_input(other_id, other_packages) <==> id == other_id
            && packages == other_packages,
        transfer_input(id, packages).fields.len() == 2,
        transfer_input(id, packages).fields[0] == TaggedFieldView::Bytes(id),
        transfer_input(id, packages).fields[1] == TaggedFieldView::ByteMap(packages),
        transfer_input(id, packages).tags == transfer_input(other_id, other_packages).tags,
{
    let fields = transfer_input(id, packages).fields;
    let others = transfer_input(other_id, other_packages).fields;
    if fields == others {
        assert(fields[0] == others[0]);
        assert(fields[1] == others[1]);
    }
}

} // verus!

//! Messages between the wallet and the operators.

use vstd::prelude::*;

use crate::model::{view_option, views};
use crate::tree::TreeNodeId;

verus! {

/// Which operators are asked.
#[derive(Debug, PartialEq, Eq, Clone, Copy, Structural)]
pub enum OperatorPool {
    /// The private ones, which the service provider lets create trees.
    Private,
    /// The ordinary ones, which finalize signatures.
    Ordinary,
}

/// The commitments of the wallet, as the operators are told them.
#[derive(Debug, PartialEq, Eq)]
pub struct SigningCommitment {
    pub hiding: Vec<u8>,
    pub binding: Vec<u8>,
}

/// The view of a `SigningCommitment`.
pub struct SigningCommitmentView {
    pub hiding: Seq<u8>,
    pub binding: Seq<u8>,
}

impl View for SigningCommitment {
    type V = SigningCommitmentView;

    open spec fn view(&self) -> SigningCommitmentView {
        SigningCommitmentView { hiding: self.hiding@, binding: self.binding@ }
    }
}

/// A transaction that the operators are asked to sign together with the wallet.
#[derive(Debug, PartialEq, Eq)]
pub struct SigningJob {
    pub signing_public_key: Vec<u8>,
    pub raw_tx: Vec<u8>,
    pub signing_nonce_commitment: Option<SigningCommitment>,
}

/// The view of a `SigningJob`.
pub struct SigningJobView {
    pub signing_public_key: Seq<u8>,
    pub raw_tx: Seq<u8>,
    pub signing_nonce_commitment: Option<SigningCommitmentView>,
}

impl View for SigningJob {
    type V = SigningJobView;

    open spec fn view(&self) -> SigningJobView {
        SigningJobView {
            signing_public_key: self.signing_public_key@,
            raw_tx: self.raw_tx@,
            signing_nonce_commitment: view_option(self.signing_nonce_commitment),
        }
    }
}

/// An output of a node's transaction.
#[derive(Debug, PartialEq, Eq)]
pub struct NodeOutput {
    pub node_id: String,
    pub vout: u32,
}

/// The view of a `NodeOutput`.
pub struct NodeOutputView {
    pub node_id: Seq<char>,
    pub vout: u32,
}

impl View for NodeOutput {
    type V = NodeOutputView;

    open spec fn view(&self) -> NodeOutputView {
        NodeOutputView { node_id: self.node_id@, vout: self.vout }
    }
}

/// Asks the operators for the addresses of a tree of one root and its children, given the keys
/// that the wallet holds for them.
#[derive(Debug, PartialEq, Eq)]
pub struct PrepareTreeAddressRequest {
    /// The output that the tree spends.
    pub source: NodeOutput,
    /// The wallet's key of the root.
    pub user_public_key: Vec<u8>,
    /// The wallet's keys of the children, which have no children of their own.
    pub child_user_public_keys: Vec<Vec<u8>>,
    pub user_identity_public_key: Vec<u8>,
}

/// The view of a `PrepareTreeAddressRequest`.
pub struct PrepareTreeAddressRequestView {
    pub source: NodeOutputView,
    pub user_public_key: Seq<u8>,
    pub child_user_public_keys: Seq<Seq<u8>>,
    pub user_identity_public_key: Seq<u8>,
}

impl View for PrepareTreeAddressRequest {
    type V = PrepareTreeAddressRequestView;

    open spec fn view(&self) -> PrepareTreeAddressRequestView {
        PrepareTreeAddressRequestView {
            source: self.source@,
            user_public_key: self.user_public_key@,
            child_user_public_keys: views(self.child_user_public_keys@),
            user_identity_public_key: self.user_identity_public_key@,
        }
    }
}

/// An address that the operators prepared, with the key that verifies what spends from it.
#[derive(Debug, PartialEq, Eq)]
pub struct PreparedAddress {
    pub address: String,
    pub verifying_key: Vec<u8>,
}

/// The view of a `PreparedAddress`.
pub struct PreparedAddressView {
    pub address: Seq<char>,
    pub verifying_key: Seq<u8>,
}

impl View for PreparedAddress {
    type V = PreparedAddressView;

    open spec fn view(&self) -> PreparedAddressView {
        PreparedAddressView { address: self.address@, verifying_key: self.verifying_key@ }
    }
}

/// The answer to a `PrepareTreeAddressRequest`: the address of the root, if it came, and those of
/// the children.
#[derive(Debug, PartialEq, Eq)]
pub struct AddressNode {
    pub address: Option<PreparedAddress>,
    pub children: Vec<ChildAddressNode>,
}

/// The view of an `AddressNode`.
pub struct AddressNodeView {
    pub address: Option<PreparedAddressView>,
    pub children: Seq<Option<PreparedAddressView>>,
}

impl View for AddressNode {
    type V = AddressNodeView;

    open spec fn view(&self) -> AddressNodeView {
        AddressNodeView { address: view_option(self.address), children: views(self.children@) }
    }
}

/// The part of the answer that is about one child.
#[derive(Debug, PartialEq, Eq)]
pub struct ChildAddressNode {
    pub address: Option<PreparedAddress>,
}

impl View for ChildAddressNode {
    type V = Option<PreparedAddressView>;

    open spec fn view(&self) -> Option<PreparedAddressView> {
        view_option(self.address)
    }
}

/// A child of the tree to create, with the five transactions to sign for it.
#[derive(Debug, PartialEq, Eq)]
pub struct CreationNode {
    pub node_tx_signing_job: SigningJob,
    pub refund_tx_signing_job: SigningJob,
    pub direct_node_tx_signing_job: SigningJob,
    pub direct_refund_tx_signing_job: SigningJob,
    pub direct_from_cpfp_refund_tx_signing_job: SigningJob,
}

/// The view of a `CreationNode`.
pub struct CreationNodeView {
    pub node_tx_signing_job: SigningJobView,
    pub refund_tx_signing_job: SigningJobView,
    pub direct_node_tx_signing_job: SigningJobView,
    pub direct_refund_tx_signing_job: SigningJobView,
    pub direct_from_cpfp_refund_tx_signing_job: SigningJobView,
}

impl View for CreationNode {
    type V = CreationNodeView;

    open spec fn view(&self) -> CreationNodeView {
        CreationNodeView {
            node_tx_signing_job: self.node_tx_signing_job@,
            refund_tx_signing_job: self.refund_tx_signing_job@,
            direct_node_tx_signing_job: self.direct_node_tx_signing_job@,
            direct_refund_tx_signing_job: self.direct_refund_tx_signing_job@,
            direct_from_cpfp_refund_tx_signing_job: self.direct_from_cpfp_refund_tx_signing_job@,
        }
    }
}

/// Asks the operators to create a tree of one root, which has no refund transactions, and its
/// children.
#[derive(Debug, PartialEq, Eq)]
pub struct CreateTreeRequest {
    /// The output that the tree spends.
    pub source: NodeOutput,
    pub node_tx_signing_job: SigningJob,
    pub direct_node_tx_signing_job: SigningJob,
    pub children: Vec<CreationNode>,
    pub user_identity_public_key: Vec<u8>,
}

/// The view of a `CreateTreeRequest`.
pub struct CreateTreeRequestView {
    pub source: NodeOutputView,
    pub node_tx_signing_job: SigningJobView,
    pub direct_node_tx_signing_job: SigningJobView,
    pub children: Seq<CreationNodeView>,
    pub user_identity_public_key: Seq<u8>,
}

impl View for CreateTreeRequest {
    type V = CreateTreeRequestView;

    open spec fn view(&self) -> CreateTreeRequestView {
        CreateTreeRequestView {
            source: self.source@,
            node_tx_signing_job: self.node_tx_signing_job@,
            direct_node_tx_signing_job: self.direct_node_tx_signing_job@,
            children: views(self.children@),
            user_identity_public_key: self.user_identity_public_key@,
        }
    }
}

/// A node that the operators created, with what they contributed to its signatures (`R`, in the
/// form in which they sent it).
pub struct CreationResponseNode<R> {
    pub node_id: String,
    /// The id as the tree knows it, unless it is none.
    pub tree_node_id: Option<TreeNodeId>,
    pub node_tx_signing_result: Option<R>,
    pub refund_tx_signing_result: Option<R>,
    pub direct_node_tx_signing_result: Option<R>,
    pub direct_refund_tx_signing_result: Option<R>,
    pub direct_from_cpfp_refund_tx_signing_result: Option<R>,
    pub children: Vec<CreationResponseNode<R>>,
}

/// The signatures of one node. A transaction that the node lacks has an empty one.
#[derive(Debug, PartialEq, Eq)]
pub struct NodeSignatures {
    pub node_id: String,
    pub node_tx_signature: Vec<u8>,
    pub refund_tx_signature: Vec<u8>,
    pub direct_node_tx_signature: Vec<u8>,
    pub direct_refund_tx_signature: Vec<u8>,
    pub direct_from_cpfp_refund_tx_signature: Vec<u8>,
}

/// The view of a `NodeSignatures`.
pub struct NodeSignaturesView {
    pub node_id: Seq<char>,
    pub node_tx_signature: Seq<u8>,
    pub refund_tx_signature: Seq<u8>,
    pub direct_node_tx_signature: Seq<u8>,
    pub direct_refund_tx_signature: Seq<u8>,
    pub direct_from_cpfp_refund_tx_signature: Seq<u8>,
}

impl View for NodeSignatures {
    type V = NodeSignaturesView;

    open spec fn view(&self) -> NodeSignaturesView {
        NodeSignaturesView {
            node_id: self.node_id@,
            node_tx_signature: self.node_tx_signature@,
            refund_tx_signature: self.refund_tx_signature@,
            direct_node_tx_signature: self.direct_node_tx_signature@,
            direct_refund_tx_signature: self.direct_refund_tx_signature@,
            direct_from_cpfp_refund_tx_signature: self.direct_from_cpfp_refund_tx_signature@,
        }
    }
}

/// What finalized signatures are for.
#[derive(Debug, PartialEq, Eq, Clone, Copy, Structural)]
pub enum SignatureIntent {
    /// The nodes were created by them.
    Creation,
}

/// Hands the operators the signatures of a tree, the root's first.
#[derive(Debug, PartialEq, Eq)]
pub struct FinalizeNodeSignaturesRequest {
    pub intent: SignatureIntent,
    pub node_signatures: Vec<NodeSignatures>,
}

/// The view of a `FinalizeNodeSignaturesRequest`.
pub struct FinalizeNodeSignaturesRequestView {
    pub intent: SignatureIntent,
    pub node_signatures: Seq<NodeSignaturesView>,
}

impl View for FinalizeNodeSignaturesRequest {
    type V = FinalizeNodeSignaturesRequestView;

    open spec fn view(&self) -> FinalizeNodeSignaturesRequestView {
        FinalizeNodeSignaturesRequestView {
            intent: self.intent,
            node_signatures: views(self.node_signatures@),
        }
    }
}

} // verus!

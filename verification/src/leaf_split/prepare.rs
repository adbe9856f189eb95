//! From the wish to split a leaf to the plan of the split.

use vstd::prelude::*;

use crate::error::{ServiceError, ServiceErrorView};
use crate::frost::{PreparedFrostNonce, PreparedFrostNonceView};
use crate::keys::{parsed_public_key, PublicKey};
use crate::leaf_split::messages::{
    AddressNode, AddressNodeView, CreateTreeRequest, CreateTreeRequestView, CreationNode,
    CreationNodeView, NodeOutput, NodeOutputView, OperatorPool, PrepareTreeAddressRequest,
    PrepareTreeAddressRequestView, PreparedAddress, PreparedAddressView, SigningJob,
};
use crate::leaf_split::plan::{
    job_plan, job_request, missing_nonce, next_nonce, planned_signing, proto_job, split_refusal,
    total_value, validate_split, LeafSplitDraft, LeafSplitDraftView, LeafSplitPlan,
    LeafSplitPlanView, SplitJobOwner, SplitSigningJobPlan, SplitSigningJobPlanView,
};
use crate::model::{
    collected, collected_is_all_or_the_first_error, lemma_collected_error, lemma_collected_step,
    lemma_collected_values, view_option, views,
};
use crate::signer::requests::{
    PrepareLeafSplitKeysRequest, PrepareLeafSplitKeysRequestView, PreparedLeafSplitKeys,
};
use crate::text::{decimal, decimal_digits, join4};
use crate::transaction::{
    address_script, consensus_bytes, script_of_address, AddressFault, Network, Transaction,
    TransactionView, TxOut, TxOutView,
};
use crate::tree::{TreeNode, TreeNodeId, TreeNodeStatus, TreeNodeView};

verus! {

/// Splits leaves: creates the children through the operators, and finalizes their signatures.
pub struct LeafSplitService {
    pub network: Network,
    pub identity_public_key: PublicKey,
}

impl LeafSplitService {
    /// A service for the wallet with this identity key, which the signer was asked for.
    pub fn new(network: Network, identity_public_key: PublicKey) -> (service: LeafSplitService)
        ensures
            service.network == network,
            service.identity_public_key == identity_public_key,
    {
        LeafSplitService { network, identity_public_key }
    }

    /// Starts the split of a leaf: asks the signer for the keys of the children.
    pub fn draft_split(
        &self,
        operation_id: String,
        parent: &TreeNode,
        child_values: Vec<u64>,
    ) -> (result: Result<SplitKeysNeeded, ServiceError>)
        ensures
            match result {
                Ok(step) => {
                    &&& split_refusal(operation_id@, parent@, child_values@) is None
                    &&& step.request@ == (PrepareLeafSplitKeysRequestView {
                        operation_id: operation_id@,
                        parent_leaf_id: parent@.id,
                        child_count: child_values@.len(),
                    })
                    &&& step.child_values@ == child_values@
                },
                Err(error) => split_refusal(operation_id@, parent@, child_values@) == Some(error@),
            },
            result is Ok <==> {
                &&& operation_id@.len() > 0
                &&& parent.status == TreeNodeStatus::Available
                &&& child_values@.len() >= 2
                &&& forall|i: int| 0 <= i < child_values@.len() ==> #[trigger] child_values@[i] > 0
                &&& total_value(child_values@) == parent.value
            },
            result matches Ok(step) ==> {
                &&& step.request.operation_id@ == operation_id@
                &&& step.request.parent_leaf_id@ == parent.id@
                &&& step.request.child_count == child_values@.len()
                &&& step.child_values@ == child_values@
            },
    {
        match validate_split(operation_id.as_str(), parent, child_values.as_slice()) {
            Ok(_) => {},
            Err(error) => return Err(error),
        }
        let child_count: usize = child_values.len();
        Ok(
            SplitKeysNeeded {
                request: PrepareLeafSplitKeysRequest {
                    operation_id,
                    parent_leaf_id: parent.id.clone(),
                    child_count,
                },
                child_values,
            },
        )
    }

    /// Starts the preparation of a drafted split: asks the signer for the public key of the leaf.
    pub fn prepare_split<'a>(&self, draft: &'a LeafSplitDraft, parent: &'a TreeNode) -> (result:
        Result<ParentKeyNeeded<'a>, ServiceError>)
        ensures
            match result {
                Ok(step) => {
                    &&& drafted_keys(draft@, parent@) == Ok::<Seq<Seq<u8>>, ServiceErrorView>(
                        views(step.split.child_public_keys@),
                    )
                    &&& step.split.child_public_keys@.len() == draft.child_public_keys@.len()
                    &&& step.split.network == self.network
                    &&& step.split.identity_public_key == self.identity_public_key
                    &&& step.split.draft@ == draft@
                    &&& step.split.parent@ == parent@
                },
                Err(error) => drafted_keys(draft@, parent@) == Err::<
                    Seq<Seq<u8>>,
                    ServiceErrorView,
                >(error@),
            },
            result is Ok <==> {
                &&& draft.operation_id@.len() > 0
                &&& parent.status == TreeNodeStatus::Available
                &&& draft.child_values@.len() >= 2
                &&& forall|i: int|
                    0 <= i < draft.child_values@.len() ==> #[trigger] draft.child_values@[i] > 0
                &&& total_value(draft.child_values@) == parent.value
                &&& draft.parent_node_id@ == parent.id@
                &&& forall|i: int|
                    0 <= i < draft.child_public_keys@.len() ==> parsed_public_key(
                        (#[trigger] draft.child_public_keys@[i])@,
                    ) is Some
            },
            result matches Ok(step) ==> {
                &&& step.split.draft == draft
                &&& step.split.parent == parent
                &&& forall|i: int|
                    0 <= i < draft.child_public_keys@.len() ==> parsed_public_key(
                        (#[trigger] draft.child_public_keys@[i])@,
                    ) == Some(step.split.child_public_keys@[i]@)
            },
    {
        match validate_split(
            draft.operation_id.as_str(),
            parent,
            draft.child_values.as_slice(),
        ) {
            Ok(_) => {},
            Err(error) => return Err(error),
        }
        if !(draft.parent_node_id.id == parent.id.id) {
            return Err(
                ServiceError::InvalidInput(
                    "split draft parent does not match supplied parent".to_string(),
                ),
            );
        }
        let child_public_keys = match parse_public_keys(&draft.child_public_keys) {
            Ok(keys) => keys,
            Err(error) => return Err(error),
        };
        Ok(
            ParentKeyNeeded {
                split: SplitContext {
                    network: self.network,
                    identity_public_key: self.identity_public_key,
                    draft,
                    parent,
                    child_public_keys,
                },
            },
        )
    }
}

/// A split whose children have no keys yet.
pub struct SplitKeysNeeded {
    /// The question to the signer.
    pub request: PrepareLeafSplitKeysRequest,
    pub child_values: Vec<u64>,
}

impl SplitKeysNeeded {
    /// The draft of the split, once the signer has stored the keys of the children.
    pub fn keys_prepared(self, keys: PreparedLeafSplitKeys) -> (draft: LeafSplitDraft)
        ensures
            draft@ == (LeafSplitDraftView {
                operation_id: self.request@.operation_id,
                parent_node_id: self.request@.parent_leaf_id,
                child_values: self.child_values@,
                child_public_keys: keys@,
            }),
            draft.operation_id@ == self.request.operation_id@,
            draft.parent_node_id@ == self.request.parent_leaf_id@,
            draft.child_values@ == self.child_values@,
            draft.child_public_keys@.len() == keys.child_public_keys@.len(),
            forall|i: int|
                0 <= i < keys.child_public_keys@.len() ==> (#[trigger] draft.child_public_keys@[i])@
                    == keys.child_public_keys@[i]@,
    {
        let mut child_public_keys: Vec<Vec<u8>> = Vec::new();
        let mut i: usize = 0;
        while i < keys.child_public_keys.len()
            invariant
                i <= keys.child_public_keys@.len(),
                views(child_public_keys@) == keys@.take(i as int),
                child_public_keys@.len() == i,
                forall|j: int|
                    0 <= j < i ==> (#[trigger] child_public_keys@[j])@
                        == keys.child_public_keys@[j]@,
            decreases keys.child_public_keys@.len() - i,
        {
            let ghost before = child_public_keys@;
            child_public_keys.push(keys.child_public_keys[i].serialize());
            assert(views(child_public_keys@) =~= views(before).push(keys@[i as int]));
            assert(keys@.take(i + 1) =~= keys@.take(i as int).push(keys@[i as int]));
            i = i + 1;
        }
        assert(keys@.take(i as int) =~= keys@);
        LeafSplitDraft {
            operation_id: self.request.operation_id,
            parent_node_id: self.request.parent_leaf_id,
            child_values: self.child_values,
            child_public_keys,
        }
    }
}

/// A key read from its bytes.
pub open spec fn read_public_key(bytes: Seq<u8>) -> Result<Seq<u8>, ServiceErrorView> {
    match parsed_public_key(bytes) {
        Some(key) => Ok(key),
        None => Err(ServiceErrorView::InvalidPublicKey),
    }
}

/// The keys read from a list of byte strings.
pub open spec fn read_public_keys(keys: Seq<Seq<u8>>) -> Result<Seq<Seq<u8>>, ServiceErrorView> {
    collected(Seq::new(keys.len(), |i: int| read_public_key(keys[i])))
}

/// The keys of the children of a draft, if the draft may be prepared with this leaf.
pub open spec fn drafted_keys(draft: LeafSplitDraftView, parent: TreeNodeView) -> Result<
    Seq<Seq<u8>>,
    ServiceErrorView,
> {
    match split_refusal(draft.operation_id, parent, draft.child_values) {
        Some(error) => Err(error),
        None => if draft.parent_node_id != parent.id {
            Err(
                ServiceErrorView::InvalidInput(
                    "split draft parent does not match supplied parent"@,
                ),
            )
        } else {
            read_public_keys(draft.child_public_keys)
        },
    }
}

fn parse_public_keys(keys: &Vec<Vec<u8>>) -> (result: Result<Vec<PublicKey>, ServiceError>)
    ensures
        match result {
            Ok(parsed) => {
                &&& read_public_keys(views(keys@)) == Ok::<Seq<Seq<u8>>, ServiceErrorView>(
                    views(parsed@),
                )
                &&& parsed@.len() == keys@.len()
            },
            Err(error) => read_public_keys(views(keys@)) == Err::<
                Seq<Seq<u8>>,
                ServiceErrorView,
            >(error@),
        },
        match result {
            Ok(parsed) => forall|i: int|
                0 <= i < keys@.len() ==> parsed_public_key((#[trigger] keys@[i])@) == Some(
                    parsed@[i]@,
                ),
            Err(error) => error@ == ServiceErrorView::InvalidPublicKey && exists|i: int|
                0 <= i < keys@.len() && parsed_public_key((#[trigger] keys@[i])@) is None,
        },
{
    let mut parsed: Vec<PublicKey> = Vec::new();
    let ghost items = Seq::new(views(keys@).len(), |i: int| read_public_key(views(keys@)[i]));
    assert(items.take(0) =~= Seq::empty());
    assert(views(parsed@) =~= Seq::empty());
    let mut i: usize = 0;
    while i < keys.len()
        invariant
            i <= keys@.len(),
            parsed@.len() == i,
            forall|j: int|
                0 <= j < i ==> parsed_public_key((#[trigger] keys@[j])@) == Some(parsed@[j]@),
            items == Seq::new(views(keys@).len(), |i: int| read_public_key(views(keys@)[i])),
            collected(items.take(i as int)) == Ok::<Seq<Seq<u8>>, ServiceErrorView>(
                views(parsed@),
            ),
        decreases keys@.len() - i,
    {
        proof {
            lemma_collected_step(items, i as int);
        }
        match PublicKey::from_slice(keys[i].as_slice()) {
            Some(key) => {
                let ghost before = parsed@;
                parsed.push(key);
                assert(views(parsed@) =~= views(before).push(key@));
            },
            None => {
                proof {
                    lemma_collected_error(items, i + 1);
                }
                return Err(ServiceError::InvalidPublicKey);
            },
        }
        i = i + 1;
    }
    assert(items.take(i as int) =~= items);
    Ok(parsed)
}

/// What the whole preparation of a split works on.
pub struct SplitContext<'a> {
    pub network: Network,
    pub identity_public_key: PublicKey,
    pub draft: &'a LeafSplitDraft,
    pub parent: &'a TreeNode,
    /// The wallet's keys of the children.
    pub child_public_keys: Vec<PublicKey>,
}

/// The first output of a node.
pub open spec fn first_output(node_id: Seq<char>) -> NodeOutputView {
    NodeOutputView { node_id, vout: 0 }
}

fn first_output_of(node_id: &TreeNodeId) -> (output: NodeOutput)
    ensures
        output@ == first_output(node_id@),
{
    NodeOutput { node_id: node_id.id.clone(), vout: 0 }
}

/// A drafted split for which the wallet's public key of the leaf is needed.
pub struct ParentKeyNeeded<'a> {
    pub split: SplitContext<'a>,
}

impl<'a> ParentKeyNeeded<'a> {
    /// The leaf whose public key is needed.
    pub fn leaf_id(&self) -> (id: &TreeNodeId)
        ensures
            *id == self.split.parent.id,
    {
        &self.split.parent.id
    }

    /// Asks the private operators for the addresses of the leaf and its children.
    pub fn parent_key_found(self, parent_public_key: PublicKey) -> (step: AddressesNeeded<'a>)
        ensures
            step.pool == OperatorPool::Private,
            step.request@ == (PrepareTreeAddressRequestView {
                source: first_output(self.split.parent@.id),
                user_public_key: parent_public_key@,
                child_user_public_keys: views(self.split.child_public_keys@),
                user_identity_public_key: self.split.identity_public_key@,
            }),
            step.split == self.split,
            step.parent_public_key == parent_public_key,
            step.request.source.node_id@ == self.split.parent.id@,
            step.request.source.vout == 0,
            step.request.user_public_key@ == parent_public_key@,
            step.request.user_identity_public_key@ == self.split.identity_public_key@,
            step.request.child_user_public_keys@.len() == self.split.child_public_keys@.len(),
            forall|i: int|
                0 <= i < self.split.child_public_keys@.len() ==> (
                #[trigger] step.request.child_user_public_keys@[i])@
                    == self.split.child_public_keys@[i]@,
    {
        let keys = &self.split.child_public_keys;
        let mut child_user_public_keys: Vec<Vec<u8>> = Vec::new();
        let mut i: usize = 0;
        while i < keys.len()
            invariant
                i <= keys@.len(),
                views(child_user_public_keys@) == views(keys@).take(i as int),
                child_user_public_keys@.len() == i,
                forall|j: int| 0 <= j < i ==> (#[trigger] child_user_public_keys@[j])@ == keys@[j]@,
            decreases keys@.len() - i,
        {
            let ghost before = child_user_public_keys@;
            child_user_public_keys.push(keys[i].serialize());
            assert(views(child_user_public_keys@) =~= views(before).push(keys@[i as int]@));
            assert(views(keys@).take(i + 1) =~= views(keys@).take(i as int).push(
                keys@[i as int]@,
            ));
            i = i + 1;
        }
        assert(views(keys@).take(i as int) =~= views(keys@));
        let request = PrepareTreeAddressRequest {
            source: first_output_of(&self.split.parent.id),
            user_public_key: parent_public_key.serialize(),
            child_user_public_keys,
            user_identity_public_key: self.split.identity_public_key.serialize(),
        };
        AddressesNeeded {
            pool: OperatorPool::Private,
            request,
            split: self.split,
            parent_public_key,
        }
    }
}

/// A drafted split for which the operators' addresses are needed.
pub struct AddressesNeeded<'a> {
    /// The operators that are asked.
    pub pool: OperatorPool,
    /// The question to them.
    pub request: PrepareTreeAddressRequest,
    pub split: SplitContext<'a>,
    pub parent_public_key: PublicKey,
}

/// A verifying key read from its bytes.
pub open spec fn read_verifying_key(bytes: Seq<u8>) -> Result<Seq<u8>, ServiceErrorView> {
    match parsed_public_key(bytes) {
        Some(key) => Ok(key),
        None => Err(ServiceErrorView::InvalidVerifyingKey),
    }
}

/// The output that pays a child its value, and the key that verifies what spends it.
pub open spec fn child_output(
    value: u64,
    address: Option<PreparedAddressView>,
    network: Network,
) -> Result<(TxOutView, Seq<u8>), ServiceErrorView> {
    match address {
        None => Err(ServiceErrorView::Generic("missing prepared child address"@)),
        Some(prepared) => match address_script(prepared.address, network) {
            Err(AddressFault::Malformed) => Err(ServiceErrorView::InvalidDepositAddress),
            Err(AddressFault::WrongNetwork) => Err(ServiceErrorView::InvalidDepositAddressNetwork),
            Ok(script_pubkey) => match read_verifying_key(prepared.verifying_key) {
                Err(error) => Err(error),
                Ok(key) => Ok((TxOutView { value, script_pubkey }, key)),
            },
        },
    }
}

/// The outputs and verifying keys of all children.
pub open spec fn child_outputs(
    values: Seq<u64>,
    addresses: Seq<Option<PreparedAddressView>>,
    network: Network,
) -> Result<Seq<(TxOutView, Seq<u8>)>, ServiceErrorView> {
    collected(Seq::new(values.len(), |i: int| child_output(values[i], addresses[i], network)))
}

/// Why the operators' addresses cannot be used for a leaf of this verifying key and this many
/// children, if they cannot. What is wrong with the address of a child is not part of it.
pub open spec fn root_refusal(
    root: Option<AddressNodeView>,
    verifying_public_key: Seq<u8>,
    child_count: nat,
) -> Option<ServiceErrorView> {
    match root {
        None => Some(ServiceErrorView::Generic("missing prepared address root"@)),
        Some(node) => match node.address {
            None => Some(ServiceErrorView::Generic("missing prepared root address"@)),
            Some(address) => if parsed_public_key(address.verifying_key) != Some(
                verifying_public_key,
            ) {
                Some(ServiceErrorView::InvalidVerifyingKey)
            } else if node.children.len() != child_count {
                Some(
                    ServiceErrorView::Generic(
                        "operator returned "@ + decimal_digits(node.children.len())
                            + " child addresses, expected "@ + decimal_digits(child_count),
                    ),
                )
            } else {
                None
            },
        },
    }
}

/// The outputs and verifying keys of the children of a split, from the operators' addresses.
pub open spec fn split_outputs(
    root: Option<AddressNodeView>,
    parent: TreeNodeView,
    child_values: Seq<u64>,
    network: Network,
) -> Result<Seq<(TxOutView, Seq<u8>)>, ServiceErrorView> {
    match root_refusal(root, parent.verifying_public_key, child_values.len()) {
        Some(error) => Err(error),
        None => child_outputs(child_values, root->Some_0.children, network),
    }
}

/// The children of a split are paid to the operators' addresses, each at its own: the output of a
/// child locks with the script of its address on the wallet's network, and what spends it verifies
/// under the key that came with that address. The root has to verify under the leaf's own key.
pub proof fn outputs_follow_the_addresses(
    root: Option<AddressNodeView>,
    parent: TreeNodeView,
    child_values: Seq<u64>,
    network: Network,
)
    ensures
        split_outputs(root, parent, child_values, network) is Ok <==> {
            &&& root matches Some(node)
            &&& node.address matches Some(address)
            &&& parsed_public_key(address.verifying_key) == Some(parent.verifying_public_key)
            &&& node.children.len() == child_values.len()
            &&& forall|i: int|
                0 <= i < child_values.len() ==> {
                    &&& #[trigger] node.children[i] matches Some(prepared)
                    &&& address_script(prepared.address, network) is Ok
                    &&& parsed_public_key(prepared.verifying_key) is Some
                }
        },
        split_outputs(root, parent, child_values, network) matches Ok(outputs) ==> {
            &&& outputs.len() == child_values.len()
            &&& forall|i: int|
                0 <= i < child_values.len() ==> {
                    let prepared = root->Some_0.children[i]->Some_0;
                    &&& (#[trigger] outputs[i]).0.value == child_values[i]
                    &&& address_script(prepared.address, network) == Ok::<Seq<u8>, AddressFault>(
                        outputs[i].0.script_pubkey,
                    )
                    &&& parsed_public_key(prepared.verifying_key) == Some(outputs[i].1)
                }
        },
{
    if root_refusal(root, parent.verifying_public_key, child_values.len()) is None {
        let addresses = root->Some_0.children;
        let items = Seq::new(
            child_values.len(),
            |i: int| child_output(child_values[i], addresses[i], network),
        );
        collected_is_all_or_the_first_error(items);
        assert forall|i: int| 0 <= i < child_values.len() implies (#[trigger] items[i] is Ok <==> {
            &&& addresses[i] matches Some(prepared)
            &&& address_script(prepared.address, network) is Ok
            &&& parsed_public_key(prepared.verifying_key) is Some
        }) by {}
        if collected(items) is Ok {
            assert forall|i: int| 0 <= i < child_values.len() implies {
                &&& #[trigger] addresses[i] matches Some(prepared)
                &&& address_script(prepared.address, network) is Ok
                &&& parsed_public_key(prepared.verifying_key) is Some
            } by {
                assert(items[i] is Ok);
            }
            let outputs = collected(items)->Ok_0;
            assert forall|i: int| 0 <= i < child_values.len() implies {
                let prepared = addresses[i]->Some_0;
                &&& (#[trigger] outputs[i]).0.value == child_values[i]
                &&& address_script(prepared.address, network) == Ok::<Seq<u8>, AddressFault>(
                    outputs[i].0.script_pubkey,
                )
                &&& parsed_public_key(prepared.verifying_key) == Some(outputs[i].1)
            } by {
                assert(items[i] == Ok::<(TxOutView, Seq<u8>), ServiceErrorView>(outputs[i]));
            }
        } else {
            let i = choose|i: int| 0 <= i < items.len() && !(#[trigger] items[i] is Ok);
            let address = addresses[i];
        }
    }
}

/// The operators' answer is refused for the first thing that is wrong with it: that it is missing,
/// or the address of its root, then that the root verifies under another key than the leaf's, then
/// that it has another number of children.
pub proof fn bad_roots_are_refused(
    root: Option<AddressNodeView>,
    verifying_public_key: Seq<u8>,
    child_count: nat,
)
    ensures
        root is None ==> root_refusal(root, verifying_public_key, child_count) == Some(
            ServiceErrorView::Generic("missing prepared address root"@),
        ),
        root matches Some(node) ==> {
            let refusal = root_refusal(root, verifying_public_key, child_count);
            &&& node.address is None ==> refusal == Some(
                ServiceErrorView::Generic("missing prepared root address"@),
            )
            &&& node.address matches Some(address) ==> {
                let verified = parsed_public_key(address.verifying_key) == Some(
                    verifying_public_key,
                );
                &&& refusal == Some(ServiceErrorView::InvalidVerifyingKey) <==> !verified
                &&& refusal is None <==> verified && node.children.len() == child_count
                &&& verified && node.children.len() != child_count ==> refusal == Some(
                    ServiceErrorView::Generic(
                        "operator returned "@ + decimal_digits(node.children.len())
                            + " child addresses, expected "@ + decimal_digits(child_count),
                    ),
                )
            }
        },
{
}

/// An address of a child is refused for the first thing that is wrong with it: that it is missing,
/// then that it is no address or one of another network, then that its key is no key.
pub proof fn bad_addresses_are_refused(
    value: u64,
    address: Option<PreparedAddressView>,
    network: Network,
)
    ensures
        match address {
            None => child_output(value, address, network) == Err::<
                (TxOutView, Seq<u8>),
                ServiceErrorView,
            >(ServiceErrorView::Generic("missing prepared child address"@)),
            Some(prepared) => match address_script(prepared.address, network) {
                Err(fault) => {
                    let refusal = if fault == AddressFault::WrongNetwork {
                        ServiceErrorView::InvalidDepositAddressNetwork
                    } else {
                        ServiceErrorView::InvalidDepositAddress
                    };
                    child_output(value, address, network) == Err::<
                        (TxOutView, Seq<u8>),
                        ServiceErrorView,
                    >(refusal)
                },
                Ok(_) => parsed_public_key(prepared.verifying_key) is None <==> child_output(
                    value,
                    address,
                    network,
                ) == Err::<(TxOutView, Seq<u8>), ServiceErrorView>(
                    ServiceErrorView::InvalidVerifyingKey,
                ),
            },
        },
{
}

/// The outputs of a split pay each child its value, and together what the leaf is worth.
pub proof fn outputs_pay_child_values(
    operation_id: Seq<char>,
    root: Option<AddressNodeView>,
    parent: TreeNodeView,
    child_values: Seq<u64>,
    network: Network,
)
    requires
        split_refusal(operation_id, parent, child_values) is None,
        split_outputs(root, parent, child_values, network) is Ok,
    ensures
        split_outputs(root, parent, child_values, network)->Ok_0.len() == child_values.len(),
        forall|i: int|
            0 <= i < child_values.len() ==> (#[trigger] split_outputs(
                root,
                parent,
                child_values,
                network,
            )->Ok_0[i]).0.value == child_values[i],
        total_value(
            split_outputs(root, parent, child_values, network)->Ok_0.map_values(
                |output: (TxOutView, Seq<u8>)| output.0.value,
            ),
        ) == parent.value,
{
    let addresses = root->Some_0.children;
    let items = Seq::new(
        child_values.len(),
        |i: int| child_output(child_values[i], addresses[i], network),
    );
    lemma_collected_values(items);
    let outputs = split_outputs(root, parent, child_values, network)->Ok_0;
    assert forall|i: int| 0 <= i < child_values.len() implies (#[trigger] outputs[i]).0.value
        == child_values[i] by {
        assert(items[i] == Ok::<(TxOutView, Seq<u8>), ServiceErrorView>(outputs[i]));
    }
    assert(outputs.map_values(|output: (TxOutView, Seq<u8>)| output.0.value) =~= child_values);
}

/// The outputs with their keys.
pub open spec fn paired(outputs: Seq<TxOut>, keys: Seq<PublicKey>) -> Seq<(TxOutView, Seq<u8>)> {
    Seq::new(outputs.len(), |i: int| (outputs[i]@, keys[i]@))
}

fn child_output_of(value: u64, address: &Option<PreparedAddress>, network: Network) -> (result:
    Result<(TxOut, PublicKey), ServiceError>)
    ensures
        match result {
            Ok((output, key)) => child_output(value, view_option(*address), network) == Ok::<
                (TxOutView, Seq<u8>),
                ServiceErrorView,
            >((output@, key@)),
            Err(error) => child_output(value, view_option(*address), network) == Err::<
                (TxOutView, Seq<u8>),
                ServiceErrorView,
            >(error@),
        },
        result is Ok <==> {
            &&& *address matches Some(prepared)
            &&& address_script(prepared.address@, network) is Ok
            &&& parsed_public_key(prepared.verifying_key@) is Some
        },
        result matches Ok((output, key)) ==> {
            &&& output.value == value
            &&& *address matches Some(prepared)
            &&& address_script(prepared.address@, network) == Ok::<Seq<u8>, AddressFault>(
                output.script_pubkey@,
            )
            &&& parsed_public_key(prepared.verifying_key@) == Some(key@)
        },
{
    let prepared = match address {
        Some(prepared) => prepared,
        None => return Err(ServiceError::Generic("missing prepared child address".to_string())),
    };
    let script_pubkey = match script_of_address(prepared.address.as_str(), network) {
        Ok(script) => script,
        Err(AddressFault::Malformed) => return Err(ServiceError::InvalidDepositAddress),
        Err(AddressFault::WrongNetwork) => return Err(ServiceError::InvalidDepositAddressNetwork),
    };
    match PublicKey::from_slice(prepared.verifying_key.as_slice()) {
        Some(key) => Ok((TxOut { value, script_pubkey }, key)),
        None => Err(ServiceError::InvalidVerifyingKey),
    }
}

impl<'a> AddressesNeeded<'a> {
    /// Reads the operators' addresses: what the split transactions pay to, and which keys verify.
    pub fn addresses_prepared(self, root: Option<AddressNode>) -> (result: Result<
        SplitTransactionsNeeded<'a>,
        ServiceError,
    >)
        ensures
            match result {
                Ok(step) => {
                    &&& split_outputs(
                        view_option(root),
                        self.split.parent@,
                        self.split.draft@.child_values,
                        self.split.network,
                    ) == Ok::<Seq<(TxOutView, Seq<u8>)>, ServiceErrorView>(
                        paired(step.child_outputs@, step.child_verifying_keys@),
                    )
                    &&& step.vout == 0
                    &&& step.child_outputs@.len() == step.child_verifying_keys@.len()
                    &&& step.child_outputs@.len() == self.split.draft@.child_values.len()
                    &&& step.split == self.split
                    &&& step.parent_public_key == self.parent_public_key
                },
                Err(error) => split_outputs(
                    view_option(root),
                    self.split.parent@,
                    self.split.draft@.child_values,
                    self.split.network,
                ) == Err::<Seq<(TxOutView, Seq<u8>)>, ServiceErrorView>(error@),
            },
            result is Ok <==> {
                &&& root matches Some(node)
                &&& node.address matches Some(address)
                &&& parsed_public_key(address.verifying_key@) == Some(
                    self.split.parent.verifying_public_key@,
                )
                &&& node.children@.len() == self.split.draft.child_values@.len()
                &&& forall|i: int|
                    0 <= i < node.children@.len() ==> {
                        &&& (#[trigger] node.children@[i]).address matches Some(prepared)
                        &&& address_script(prepared.address@, self.split.network) is Ok
                        &&& parsed_public_key(prepared.verifying_key@) is Some
                    }
            },
            result matches Ok(step) ==> forall|i: int|
                0 <= i < self.split.draft.child_values@.len() ==> {
                    &&& step.child_outputs@[i].value == #[trigger] self.split.draft.child_values@[i]
                    &&& root->Some_0.children@[i].address matches Some(prepared)
                    &&& address_script(prepared.address@, self.split.network) == Ok::<
                        Seq<u8>,
                        AddressFault,
                    >(step.child_outputs@[i].script_pubkey@)
                    &&& parsed_public_key(prepared.verifying_key@) == Some(
                        step.child_verifying_keys@[i]@,
                    )
                },
    {
        let node = match root {
            Some(node) => node,
            None => {
                return Err(ServiceError::Generic("missing prepared address root".to_string()));
            },
        };
        let root_address = match &node.address {
            Some(address) => address,
            None => {
                return Err(ServiceError::Generic("missing prepared root address".to_string()));
            },
        };
        match PublicKey::from_slice(root_address.verifying_key.as_slice()) {
            Some(key) => {
                if !key.same(&self.split.parent.verifying_public_key) {
                    return Err(ServiceError::InvalidVerifyingKey);
                }
            },
            None => return Err(ServiceError::InvalidVerifyingKey),
        }
        let values = &self.split.draft.child_values;
        let network = self.split.network;
        if node.children.len() != values.len() {
            let found = decimal(node.children.len() as u64);
            let expected = decimal(values.len() as u64);
            return Err(
                ServiceError::Generic(
                    join4(
                        "operator returned ",
                        found.as_str(),
                        " child addresses, expected ",
                        expected.as_str(),
                    ),
                ),
            );
        }
        let mut outputs: Vec<TxOut> = Vec::new();
        let mut keys: Vec<PublicKey> = Vec::new();
        let ghost addresses = views(node.children@);
        let ghost items = Seq::new(
            values@.len(),
            |i: int| child_output(values@[i], addresses[i], network),
        );
        assert(items.take(0) =~= Seq::empty());
        assert(paired(outputs@, keys@) =~= Seq::empty());
        let mut i: usize = 0;
        #[verifier::loop_isolation(false)]
        while i < values.len()
            invariant
                i <= values@.len(),
                node.children@.len() == values@.len(),
                addresses == views(node.children@),
                items == Seq::new(
                    values@.len(),
                    |i: int| child_output(values@[i], addresses[i], network),
                ),
                outputs@.len() == i,
                keys@.len() == i,
                forall|j: int| 0 <= j < i ==> (#[trigger] node.children@[j]).address is Some,
                forall|j: int| 0 <= j < i ==> (#[trigger] outputs@[j]).value == values@[j],
                forall|j: int|
                    0 <= j < i ==> address_script(
                        node.children@[j].address->Some_0.address@,
                        network,
                    ) == Ok::<Seq<u8>, AddressFault>((#[trigger] outputs@[j]).script_pubkey@),
                forall|j: int|
                    0 <= j < i ==> parsed_public_key(
                        node.children@[j].address->Some_0.verifying_key@,
                    ) == Some((#[trigger] keys@[j])@),
                collected(items.take(i as int)) == Ok::<
                    Seq<(TxOutView, Seq<u8>)>,
                    ServiceErrorView,
                >(paired(outputs@, keys@)),
            decreases values@.len() - i,
        {
            proof {
                lemma_collected_step(items, i as int);
            }
            match child_output_of(values[i], &node.children[i].address, network) {
                Ok((output, key)) => {
                    let ghost before = paired(outputs@, keys@);
                    outputs.push(output);
                    keys.push(key);
                    assert(paired(outputs@, keys@) =~= before.push((output@, key@)));
                },
                Err(error) => {
                    proof {
                        lemma_collected_error(items, i + 1);
                    }
                    return Err(error);
                },
            }
            i = i + 1;
        }
        assert(items.take(i as int) =~= items);
        assert forall|j: int| 0 <= j < node.children@.len() implies {
            &&& (#[trigger] node.children@[j]).address matches Some(prepared)
            &&& address_script(prepared.address@, network) is Ok
            &&& parsed_public_key(prepared.verifying_key@) is Some
        } by {
            let output = outputs@[j];
            let key = keys@[j];
        }
        assert forall|j: int| 0 <= j < values@.len() implies {
            &&& outputs@[j].value == #[trigger] values@[j]
            &&& node.children@[j].address matches Some(prepared)
            &&& address_script(prepared.address@, network) == Ok::<Seq<u8>, AddressFault>(
                outputs@[j].script_pubkey@,
            )
            &&& parsed_public_key(prepared.verifying_key@) == Some(keys@[j]@)
        } by {
            let child = node.children@[j];
        }
        Ok(
            SplitTransactionsNeeded {
                vout: 0,
                split: self.split,
                parent_public_key: self.parent_public_key,
                child_outputs: outputs,
                child_verifying_keys: keys,
            },
        )
    }
}

/// A split whose transactions have to be built: both spend output `vout` of the leaf's
/// transaction and pay `child_outputs`.
pub struct SplitTransactionsNeeded<'a> {
    pub vout: u32,
    pub split: SplitContext<'a>,
    pub parent_public_key: PublicKey,
    pub child_outputs: Vec<TxOut>,
    pub child_verifying_keys: Vec<PublicKey>,
}

impl<'a> SplitTransactionsNeeded<'a> {
    /// The transaction of the leaf, whose output both spend.
    pub fn node_tx(&self) -> (tx: &Transaction)
        ensures
            *tx == self.split.parent.node_tx,
    {
        &self.split.parent.node_tx
    }

    /// Asks the signer for the nonces: two for the leaf, and five for each child.
    pub fn transactions_created(
        self,
        split_tx: Transaction,
        direct_split_tx: Transaction,
    ) -> (step: NoncesNeeded<'a>)
        requires
            2 + 5 * self.split.draft@.child_values.len() <= usize::MAX,
        ensures
            step.count == 2 + 5 * self.split.draft@.child_values.len(),
            step.split == self.split,
            step.parent_public_key == self.parent_public_key,
            step.child_verifying_keys == self.child_verifying_keys,
            step.split_tx == split_tx,
            step.direct_split_tx == direct_split_tx,
    {
        let count: usize = 2 + self.split.draft.child_values.len() * 5;
        NoncesNeeded {
            count,
            split: self.split,
            parent_public_key: self.parent_public_key,
            child_verifying_keys: self.child_verifying_keys,
            split_tx,
            direct_split_tx,
        }
    }
}

/// A split for which nonces have to be prepared.
pub struct NoncesNeeded<'a> {
    /// How many.
    pub count: usize,
    pub split: SplitContext<'a>,
    pub parent_public_key: PublicKey,
    pub child_verifying_keys: Vec<PublicKey>,
    pub split_tx: Transaction,
    pub direct_split_tx: Transaction,
}

/// All that the signing jobs of a split are made from, besides the transactions of the children.
pub struct SplitMaterial {
    pub parent_id: Seq<char>,
    pub identity_public_key: Seq<u8>,
    pub parent_public_key: Seq<u8>,
    pub parent_verifying_key: Seq<u8>,
    pub parent_output: TxOutView,
    pub split_tx: TransactionView,
    pub direct_split_tx: TransactionView,
    pub child_public_keys: Seq<Seq<u8>>,
    pub child_verifying_keys: Seq<Seq<u8>>,
    pub nonces: Seq<PreparedFrostNonceView>,
}

/// The five transactions of a child.
pub struct ChildTransactionsView {
    pub node_tx: TransactionView,
    pub direct_node_tx: TransactionView,
    pub refund_tx: TransactionView,
    pub direct_refund_tx: TransactionView,
    pub direct_from_cpfp_refund_tx: TransactionView,
}

/// Whether a planned job signs this transaction, which spends this output.
pub open spec fn signs(job: SplitSigningJobPlan, tx: Transaction, spent: TxOut) -> bool {
    &&& job.transaction@ == consensus_bytes(tx@)
    &&& job.previous_output_value == spent.value
    &&& job.previous_output_script@ == spent.script_pubkey@
}

/// Whether the operators are asked to sign this transaction, with the wallet's key and the
/// commitments of this nonce.
pub open spec fn asks_to_sign(
    job: SigningJob,
    tx: Transaction,
    key: PublicKey,
    nonce: PreparedFrostNonce,
) -> bool {
    &&& job.raw_tx@ == consensus_bytes(tx@)
    &&& job.signing_public_key@ == key@
    &&& job.signing_nonce_commitment matches Some(commitment)
    &&& commitment.hiding@ == nonce.hiding_commitment@
    &&& commitment.binding@ == nonce.binding_commitment@
}

/// The jobs of the leaf itself: the split transaction, and the direct one.
pub open spec fn root_jobs(material: SplitMaterial) -> Seq<SplitSigningJobPlanView> {
    seq![
        planned_signing(
            SplitJobOwner::Parent,
            material.split_tx,
            material.parent_output,
            material.parent_public_key,
            material.parent_verifying_key,
            material.nonces[0],
        ),
        planned_signing(
            SplitJobOwner::Parent,
            material.direct_split_tx,
            material.parent_output,
            material.parent_public_key,
            material.parent_verifying_key,
            material.nonces[1],
        ),
    ]
}

/// One job of the child at a position, with the nonce at its place.
pub open spec fn child_job(
    material: SplitMaterial,
    index: int,
    tx: TransactionView,
    previous_output: TxOutView,
    place: int,
) -> SplitSigningJobPlanView {
    planned_signing(
        SplitJobOwner::Child(index as usize),
        tx,
        previous_output,
        material.child_public_keys[index],
        material.child_verifying_keys[index],
        material.nonces[2 + 5 * index + place],
    )
}

/// The jobs of the child at a position: node, direct node, refund, direct refund, and refund
/// directly from the node. The first two spend the child's output of the split transaction.
pub open spec fn child_jobs(
    material: SplitMaterial,
    index: int,
    child: ChildTransactionsView,
) -> Seq<SplitSigningJobPlanView> {
    let split_output = material.split_tx.outputs[index];
    let node_output = child.node_tx.outputs[0];
    let direct_node_output = child.direct_node_tx.outputs[0];
    seq![
        child_job(material, index, child.node_tx, split_output, 0),
        child_job(material, index, child.direct_node_tx, split_output, 1),
        child_job(material, index, child.refund_tx, node_output, 2),
        child_job(material, index, child.direct_refund_tx, direct_node_output, 3),
        child_job(material, index, child.direct_from_cpfp_refund_tx, node_output, 4),
    ]
}

/// The jobs of a split: those of the leaf, then those of each child in order.
pub open spec fn split_jobs(material: SplitMaterial, children: Seq<ChildTransactionsView>) -> Seq<
    SplitSigningJobPlanView,
>
    decreases children.len(),
{
    if children.len() == 0 {
        root_jobs(material)
    } else {
        split_jobs(material, children.drop_last()) + child_jobs(
            material,
            children.len() - 1,
            children.last(),
        )
    }
}

/// What the operators are asked to create for the child at a position.
pub open spec fn child_creation(
    material: SplitMaterial,
    index: int,
    child: ChildTransactionsView,
) -> CreationNodeView {
    let key = material.child_public_keys[index];
    let base = 2 + 5 * index;
    CreationNodeView {
        node_tx_signing_job: job_request(child.node_tx, key, material.nonces[base]),
        direct_node_tx_signing_job: job_request(
            child.direct_node_tx,
            key,
            material.nonces[base + 1],
        ),
        refund_tx_signing_job: job_request(child.refund_tx, key, material.nonces[base + 2]),
        direct_refund_tx_signing_job: job_request(
            child.direct_refund_tx,
            key,
            material.nonces[base + 3],
        ),
        direct_from_cpfp_refund_tx_signing_job: job_request(
            child.direct_from_cpfp_refund_tx,
            key,
            material.nonces[base + 4],
        ),
    }
}

/// What the operators are asked to create for all children.
pub open spec fn child_creations(
    material: SplitMaterial,
    children: Seq<ChildTransactionsView>,
) -> Seq<CreationNodeView> {
    Seq::new(children.len(), |i: int| child_creation(material, i, children[i]))
}

/// What the operators are asked to create.
pub open spec fn split_request(
    material: SplitMaterial,
    children: Seq<ChildTransactionsView>,
) -> CreateTreeRequestView {
    CreateTreeRequestView {
        source: first_output(material.parent_id),
        node_tx_signing_job: job_request(
            material.split_tx,
            material.parent_public_key,
            material.nonces[0],
        ),
        direct_node_tx_signing_job: job_request(
            material.direct_split_tx,
            material.parent_public_key,
            material.nonces[1],
        ),
        children: child_creations(material, children),
        user_identity_public_key: material.identity_public_key,
    }
}

impl<'a> NoncesNeeded<'a> {
    /// What the jobs are made from, once the nonces are there.
    pub open spec fn material(
        self,
        parent_output: TxOutView,
        nonces: Seq<PreparedFrostNonceView>,
    ) -> SplitMaterial {
        SplitMaterial {
            parent_id: self.split.parent@.id,
            identity_public_key: self.split.identity_public_key@,
            parent_public_key: self.parent_public_key@,
            parent_verifying_key: self.split.parent@.verifying_public_key,
            parent_output,
            split_tx: self.split_tx@,
            direct_split_tx: self.direct_split_tx@,
            child_public_keys: views(self.split.child_public_keys@),
            child_verifying_keys: views(self.child_verifying_keys@),
            nonces,
        }
    }

    /// Why the split cannot go on with these nonces, if it cannot.
    pub open spec fn refusal(self, nonces: Seq<PreparedFrostNonceView>) -> Option<
        ServiceErrorView,
    > {
        if self.split.parent@.node_tx.outputs.len() == 0 {
            Some(ServiceErrorView::InvalidOutputIndex)
        } else if nonces.len() < 2 {
            Some(missing_nonce())
        } else {
            None
        }
    }

    /// Plans the signing of the split transactions. The children follow.
    pub fn nonces_prepared(self, nonces: Vec<PreparedFrostNonce>) -> (result: Result<
        SplitAssembly<'a>,
        ServiceError,
    >)
        ensures
            match result {
                Ok(assembly) => {
                    &&& self.refusal(views(nonces@)) is None
                    &&& assembly.wf()
                    &&& assembly.material() == self.material(
                        self.split.parent@.node_tx.outputs[0],
                        views(nonces@),
                    )
                    &&& assembly.created@.len() == 0
                    &&& assembly.split == self.split
                    &&& assembly.child_verifying_keys == self.child_verifying_keys
                    &&& assembly.split_tx == self.split_tx
                },
                Err(error) => self.refusal(views(nonces@)) == Some(error@),
            },
            result is Ok <==> self.split.parent.node_tx.outputs@.len() > 0 && nonces@.len() >= 2,
            result matches Err(error) ==> if self.split.parent.node_tx.outputs@.len() == 0 {
                error is InvalidOutputIndex
            } else {
                error matches ServiceError::Generic(text) && text@
                    == "missing prepared split nonce"@
            },
            result matches Ok(assembly) ==> {
                &&& assembly.nonces@ == nonces@
                &&& assembly.parent_public_key == self.parent_public_key
                &&& assembly.direct_split_tx == self.direct_split_tx
                &&& assembly.children@.len() == 0
                &&& assembly.signing_jobs@.len() == 2
                &&& assembly.signing_jobs@[0].transaction@ == consensus_bytes(self.split_tx@)
                &&& assembly.signing_jobs@[1].transaction@ == consensus_bytes(self.direct_split_tx@)
                &&& forall|j: int|
                    0 <= j < 2 ==> {
                        let job = #[trigger] assembly.signing_jobs@[j];
                        let spent = self.split.parent.node_tx.outputs@[0];
                        &&& job.owner == SplitJobOwner::Parent
                        &&& job.previous_output_value == spent.value
                        &&& job.previous_output_script@ == spent.script_pubkey@
                        &&& job.signing_public_key@ == self.parent_public_key@
                        &&& job.verifying_public_key@ == self.split.parent.verifying_public_key@
                        &&& job.nonce@ == nonces@[j]@
                    }
                &&& asks_to_sign(
                    assembly.node_tx_signing_job,
                    self.split_tx,
                    self.parent_public_key,
                    nonces@[0],
                )
                &&& asks_to_sign(
                    assembly.direct_node_tx_signing_job,
                    self.direct_split_tx,
                    self.parent_public_key,
                    nonces@[1],
                )
            },
    {
        if self.split.parent.node_tx.outputs.len() == 0 {
            return Err(ServiceError::InvalidOutputIndex);
        }
        let parent_output = self.split.parent.node_tx.outputs[0].clone();
        let mut taken: usize = 0;
        let root_nonce = match next_nonce(&nonces, &mut taken) {
            Ok(nonce) => nonce,
            Err(error) => return Err(error),
        };
        let direct_nonce = match next_nonce(&nonces, &mut taken) {
            Ok(nonce) => nonce,
            Err(error) => return Err(error),
        };
        let node_tx_signing_job = proto_job(&self.split_tx, self.parent_public_key, &root_nonce);
        let direct_node_tx_signing_job = proto_job(
            &self.direct_split_tx,
            self.parent_public_key,
            &direct_nonce,
        );
        let mut signing_jobs: Vec<SplitSigningJobPlan> = Vec::new();
        signing_jobs.push(
            job_plan(
                SplitJobOwner::Parent,
                &self.split_tx,
                &parent_output,
                self.parent_public_key,
                self.split.parent.verifying_public_key,
                root_nonce,
            ),
        );
        signing_jobs.push(
            job_plan(
                SplitJobOwner::Parent,
                &self.direct_split_tx,
                &parent_output,
                self.parent_public_key,
                self.split.parent.verifying_public_key,
                direct_nonce,
            ),
        );
        let children: Vec<CreationNode> = Vec::new();
        let ghost material = self.material(parent_output@, views(nonces@));
        assert(views(signing_jobs@) =~= root_jobs(material));
        assert(views(children@) =~= child_creations(material, Seq::empty()));
        Ok(
            SplitAssembly {
                split: self.split,
                parent_public_key: self.parent_public_key,
                parent_output,
                child_verifying_keys: self.child_verifying_keys,
                split_tx: self.split_tx,
                direct_split_tx: self.direct_split_tx,
                nonces,
                taken,
                signing_jobs,
                node_tx_signing_job,
                direct_node_tx_signing_job,
                children,
                created: Ghost(Seq::empty()),
            },
        )
    }
}

/// The transactions of a child, as they were built. A refund that could not be built is missing.
pub struct ChildTransactions {
    pub node_tx: Transaction,
    pub direct_node_tx: Transaction,
    pub refund_tx: Transaction,
    pub direct_refund_tx: Option<Transaction>,
    pub direct_from_cpfp_refund_tx: Option<Transaction>,
}

impl ChildTransactions {
    /// Whether no transaction is missing.
    pub open spec fn complete(self) -> bool {
        self.direct_refund_tx is Some && self.direct_from_cpfp_refund_tx is Some
    }
}

impl View for ChildTransactions {
    type V = ChildTransactionsView;

    open spec fn view(&self) -> ChildTransactionsView {
        ChildTransactionsView {
            node_tx: self.node_tx@,
            direct_node_tx: self.direct_node_tx@,
            refund_tx: self.refund_tx@,
            direct_refund_tx: self.direct_refund_tx->Some_0@,
            direct_from_cpfp_refund_tx: self.direct_from_cpfp_refund_tx->Some_0@,
        }
    }
}

/// Asks for the transactions of a child: its nodes spend output `vout` of the split transaction,
/// and its refunds spend the nodes and pay `signing_public_key` on the network.
pub struct ChildTransactionsRequest<'b> {
    pub split_tx: &'b Transaction,
    pub vout: u32,
    pub signing_public_key: PublicKey,
    pub network: Network,
}

/// A split some of whose children are planned, in order.
pub struct SplitAssembly<'a> {
    pub split: SplitContext<'a>,
    pub parent_public_key: PublicKey,
    pub parent_output: TxOut,
    pub child_verifying_keys: Vec<PublicKey>,
    pub split_tx: Transaction,
    pub direct_split_tx: Transaction,
    pub nonces: Vec<PreparedFrostNonce>,
    /// How many nonces are used up.
    pub taken: usize,
    pub signing_jobs: Vec<SplitSigningJobPlan>,
    pub node_tx_signing_job: SigningJob,
    pub direct_node_tx_signing_job: SigningJob,
    pub children: Vec<CreationNode>,
    /// The transactions of the planned children.
    pub created: Ghost<Seq<ChildTransactionsView>>,
}

impl<'a> SplitAssembly<'a> {
    /// What the jobs are made from.
    pub open spec fn material(self) -> SplitMaterial {
        SplitMaterial {
            parent_id: self.split.parent@.id,
            identity_public_key: self.split.identity_public_key@,
            parent_public_key: self.parent_public_key@,
            parent_verifying_key: self.split.parent@.verifying_public_key,
            parent_output: self.parent_output@,
            split_tx: self.split_tx@,
            direct_split_tx: self.direct_split_tx@,
            child_public_keys: views(self.split.child_public_keys@),
            child_verifying_keys: views(self.child_verifying_keys@),
            nonces: views(self.nonces@),
        }
    }

    /// How many children are to be planned: each needs both of its keys.
    pub open spec fn child_count(self) -> nat {
        if self.split.child_public_keys@.len() <= self.child_verifying_keys@.len() {
            self.split.child_public_keys@.len()
        } else {
            self.child_verifying_keys@.len()
        }
    }

    /// Whether the jobs and the request are those of the planned children, with each nonce used
    /// at its own place.
    pub open spec fn wf(self) -> bool {
        &&& self.created@.len() <= self.child_count()
        &&& self.taken == 2 + 5 * self.created@.len()
        &&& self.taken <= self.nonces@.len()
        &&& views(self.signing_jobs@) == split_jobs(self.material(), self.created@)
        &&& views(self.children@) == child_creations(self.material(), self.created@)
        &&& self.node_tx_signing_job@ == split_request(
            self.material(),
            self.created@,
        ).node_tx_signing_job
        &&& self.direct_node_tx_signing_job@ == split_request(
            self.material(),
            self.created@,
        ).direct_node_tx_signing_job
    }

    /// The next child whose transactions are needed, until all are planned.
    pub fn next_child<'b>(&'b self) -> (request: Option<ChildTransactionsRequest<'b>>)
        requires
            self.wf(),
        ensures
            match request {
                Some(asked) => {
                    &&& self.created@.len() < self.child_count()
                    &&& *asked.split_tx == self.split_tx
                    &&& asked.vout == self.created@.len() as u32
                    &&& asked.network == self.split.network
                    &&& asked.signing_public_key
                        == self.split.child_public_keys@[self.created@.len() as int]
                },
                None => self.created@.len() == self.child_count(),
            },
            request is Some <==> self.children@.len() < self.split.child_public_keys@.len()
                && self.children@.len() < self.child_verifying_keys@.len(),
            request matches Some(asked) ==> {
                &&& asked.vout == self.children@.len() as u32
                &&& asked.signing_public_key
                    == self.split.child_public_keys@[self.children@.len() as int]
            },
    {
        let index: usize = self.children.len();
        assert(views(self.children@).len() == self.children@.len());
        if index < self.split.child_public_keys.len() && index < self.child_verifying_keys.len() {
            Some(
                ChildTransactionsRequest {
                    split_tx: &self.split_tx,
                    vout: #[verifier::truncate] (index as u32),
                    signing_public_key: self.split.child_public_keys[index],
                    network: self.split.network,
                },
            )
        } else {
            None
        }
    }

    /// Why the next child cannot be planned with these transactions, if it cannot.
    pub open spec fn child_refusal(self, child: ChildTransactions) -> Option<ServiceErrorView> {
        if child.direct_refund_tx is None {
            Some(ServiceErrorView::Generic("missing direct refund transaction"@))
        } else if child.direct_from_cpfp_refund_tx is None {
            Some(ServiceErrorView::Generic("missing direct-from-CPFP refund transaction"@))
        } else if self.taken + 5 > self.nonces@.len() {
            Some(missing_nonce())
        } else {
            None
        }
    }

    /// Takes the five nonces of the next child.
    fn child_nonces(&mut self) -> (result: Result<Vec<PreparedFrostNonce>, ServiceError>)
        requires
            old(self).taken <= old(self).nonces@.len(),
        ensures
            match result {
                Ok(taken) => {
                    &&& old(self).taken + 5 <= old(self).nonces@.len()
                    &&& final(self).taken == old(self).taken + 5
                    &&& *final(self) == (SplitAssembly { taken: final(self).taken, ..*old(self) })
                    &&& taken@.len() == 5
                    &&& forall|k: int|
                        0 <= k < 5 ==> #[trigger] taken@[k]@ == views(old(self).nonces@)[old(
                            self,
                        ).taken + k]
                },
                Err(error) => old(self).taken + 5 > old(self).nonces@.len() && error@
                    == missing_nonce(),
            },
    {
        let mut taken: Vec<PreparedFrostNonce> = Vec::new();
        let mut position: usize = self.taken;
        let mut k: usize = 0;
        while k < 5
            invariant
                k <= 5,
                self.taken <= self.nonces@.len(),
                position == self.taken + k,
                position <= self.nonces@.len(),
                *self == *old(self),
                taken@.len() == k,
                forall|j: int|
                    0 <= j < k ==> #[trigger] taken@[j]@ == views(self.nonces@)[self.taken + j],
            decreases 5 - k,
        {
            match next_nonce(&self.nonces, &mut position) {
                Ok(nonce) => taken.push(nonce),
                Err(error) => return Err(error),
            }
            k = k + 1;
        }
        self.taken = position;
        Ok(taken)
    }

    /// Plans the next child. Its own outputs, and its output of the split transaction, have to
    /// be there.
    pub fn child_created(self, child: ChildTransactions) -> (result: Result<
        SplitAssembly<'a>,
        ServiceError,
    >)
        requires
            self.wf(),
            self.created@.len() < self.child_count(),
            child.complete() ==> {
                &&& self.created@.len() < self.split_tx@.outputs.len()
                &&& child.node_tx@.outputs.len() > 0
                &&& child.direct_node_tx@.outputs.len() > 0
            },
        ensures
            match result {
                Ok(next) => {
                    &&& self.child_refusal(child) is None
                    &&& next.wf()
                    &&& next.material() == self.material()
                    &&& next.split == self.split
                    &&& next.child_verifying_keys == self.child_verifying_keys
                    &&& next.split_tx == self.split_tx
                    &&& next.created@ == self.created@.push(child@)
                },
                Err(error) => self.child_refusal(child) == Some(error@),
            },
            result is Ok <==> {
                &&& child.direct_refund_tx is Some
                &&& child.direct_from_cpfp_refund_tx is Some
                &&& self.nonces@.len() >= 7 + 5 * self.children@.len()
            },
            result matches Err(error) ==> (error matches ServiceError::Generic(text) && text@
                == if child.direct_refund_tx is None {
                "missing direct refund transaction"@
            } else if child.direct_from_cpfp_refund_tx is None {
                "missing direct-from-CPFP refund transaction"@
            } else {
                "missing prepared split nonce"@
            }),
            result matches Ok(next) ==> {
                let index = self.children@.len() as int;
                let jobs = next.signing_jobs@;
                let block = self.signing_jobs@.len() as int;
                let key = self.split.child_public_keys@[index];
                let node = next.children@[index];
                &&& next.nonces == self.nonces
                &&& next.parent_public_key == self.parent_public_key
                &&& next.direct_split_tx == self.direct_split_tx
                &&& next.node_tx_signing_job == self.node_tx_signing_job
                &&& next.direct_node_tx_signing_job == self.direct_node_tx_signing_job
                &&& jobs.len() == block + 5
                &&& jobs.take(block) == self.signing_jobs@
                &&& forall|k: int|
                    0 <= k < 5 ==> {
                        let job = #[trigger] jobs[block + k];
                        &&& job.owner == SplitJobOwner::Child(index as usize)
                        &&& job.signing_public_key@ == key@
                        &&& job.verifying_public_key@ == self.child_verifying_keys@[index]@
                        &&& job.nonce@ == self.nonces@[2 + 5 * index + k]@
                    }
                &&& signs(jobs[block], child.node_tx, self.split_tx.outputs@[index])
                &&& signs(jobs[block + 1], child.direct_node_tx, self.split_tx.outputs@[index])
                &&& signs(jobs[block + 2], child.refund_tx, child.node_tx.outputs@[0])
                &&& signs(
                    jobs[block + 3],
                    child.direct_refund_tx->Some_0,
                    child.direct_node_tx.outputs@[0],
                )
                &&& signs(
                    jobs[block + 4],
                    child.direct_from_cpfp_refund_tx->Some_0,
                    child.node_tx.outputs@[0],
                )
                &&& next.children@.len() == index + 1
                &&& next.children@.take(index) == self.children@
                &&& asks_to_sign(
                    node.node_tx_signing_job,
                    child.node_tx,
                    key,
                    self.nonces@[2 + 5 * index],
                )
                &&& asks_to_sign(
                    node.direct_node_tx_signing_job,
                    child.direct_node_tx,
                    key,
                    self.nonces@[3 + 5 * index],
                )
                &&& asks_to_sign(
                    node.refund_tx_signing_job,
                    child.refund_tx,
                    key,
                    self.nonces@[4 + 5 * index],
                )
                &&& asks_to_sign(
                    node.direct_refund_tx_signing_job,
                    child.direct_refund_tx->Some_0,
                    key,
                    self.nonces@[5 + 5 * index],
                )
                &&& asks_to_sign(
                    node.direct_from_cpfp_refund_tx_signing_job,
                    child.direct_from_cpfp_refund_tx->Some_0,
                    key,
                    self.nonces@[6 + 5 * index],
                )
            },
    {
        let mut next = self;
        let direct_refund_tx = match child.direct_refund_tx {
            Some(tx) => tx,
            None => {
                return Err(ServiceError::Generic("missing direct refund transaction".to_string()));
            },
        };
        let direct_from_cpfp_refund_tx = match child.direct_from_cpfp_refund_tx {
            Some(tx) => tx,
            None => {
                return Err(
                    ServiceError::Generic(
                        "missing direct-from-CPFP refund transaction".to_string(),
                    ),
                );
            },
        };
        let index: usize = next.children.len();
        assert(views(next.children@).len() == next.children@.len());
        let signing_key = next.split.child_public_keys[index];
        let verifying_key = next.child_verifying_keys[index];
        assert(views(next.split_tx.outputs@).len() == next.split_tx.outputs@.len());
        assert(views(child.node_tx.outputs@).len() == child.node_tx.outputs@.len());
        assert(views(child.direct_node_tx.outputs@).len() == child.direct_node_tx.outputs@.len());
        let nonces = match next.child_nonces() {
            Ok(nonces) => nonces,
            Err(error) => return Err(error),
        };
        let ghost material = self.material();
        assert(next.material() == material);
        let owner = SplitJobOwner::Child(index);
        let split_output = &next.split_tx.outputs[index];
        let node_output = &child.node_tx.outputs[0];
        let direct_node_output = &child.direct_node_tx.outputs[0];
        let creation = CreationNode {
            node_tx_signing_job: proto_job(&child.node_tx, signing_key, &nonces[0]),
            refund_tx_signing_job: proto_job(&child.refund_tx, signing_key, &nonces[2]),
            direct_node_tx_signing_job: proto_job(&child.direct_node_tx, signing_key, &nonces[1]),
            direct_refund_tx_signing_job: proto_job(&direct_refund_tx, signing_key, &nonces[3]),
            direct_from_cpfp_refund_tx_signing_job: proto_job(
                &direct_from_cpfp_refund_tx,
                signing_key,
                &nonces[4],
            ),
        };
        let node_job = job_plan(
            owner,
            &child.node_tx,
            split_output,
            signing_key,
            verifying_key,
            nonces[0].clone(),
        );
        let direct_node_job = job_plan(
            owner,
            &child.direct_node_tx,
            split_output,
            signing_key,
            verifying_key,
            nonces[1].clone(),
        );
        let refund_job = job_plan(
            owner,
            &child.refund_tx,
            node_output,
            signing_key,
            verifying_key,
            nonces[2].clone(),
        );
        let direct_refund_job = job_plan(
            owner,
            &direct_refund_tx,
            direct_node_output,
            signing_key,
            verifying_key,
            nonces[3].clone(),
        );
        let direct_from_cpfp_job = job_plan(
            owner,
            &direct_from_cpfp_refund_tx,
            node_output,
            signing_key,
            verifying_key,
            nonces[4].clone(),
        );
        let ghost jobs = child_jobs(material, index as int, child@);
        assert(node_job@ == jobs[0]);
        assert(direct_node_job@ == jobs[1]);
        assert(refund_job@ == jobs[2]);
        assert(direct_refund_job@ == jobs[3]);
        assert(direct_from_cpfp_job@ == jobs[4]);
        next.signing_jobs.push(node_job);
        next.signing_jobs.push(direct_node_job);
        next.signing_jobs.push(refund_job);
        next.signing_jobs.push(direct_refund_job);
        next.signing_jobs.push(direct_from_cpfp_job);
        assert(views(next.signing_jobs@) =~= views(self.signing_jobs@) + jobs);
        assert(next.signing_jobs@.take(self.signing_jobs@.len() as int) =~= self.signing_jobs@);
        proof {
            let made = next.signing_jobs@;
            let block = self.signing_jobs@.len() as int;
            assert forall|k: int| 0 <= k < 5 implies {
                let job = #[trigger] made[block + k];
                &&& job.owner == owner
                &&& job.signing_public_key@ == signing_key@
                &&& job.verifying_public_key@ == verifying_key@
                &&& job.nonce@ == nonces@[k]@
            } by {
                assert(made[block + 0] == node_job);
                assert(made[block + 1] == direct_node_job);
                assert(made[block + 2] == refund_job);
                assert(made[block + 3] == direct_refund_job);
                assert(made[block + 4] == direct_from_cpfp_job);
                assert(k == 0 || k == 1 || k == 2 || k == 3 || k == 4);
            }
        }
        assert(creation@ == child_creation(material, index as int, child@));
        next.children.push(creation);
        next.created = Ghost(self.created@.push(child@));
        assert(self.created@.push(child@).drop_last() =~= self.created@);
        assert(views(next.children@) =~= views(self.children@).push(creation@));
        assert(next.children@.take(self.children@.len() as int) =~= self.children@);
        assert(child_creations(material, next.created@) =~= child_creations(
            material,
            self.created@,
        ).push(creation@));
        Ok(next)
    }

    /// The request to the operators, once all children are planned.
    pub fn finish(self) -> (step: RequestEncodingNeeded)
        requires
            self.wf(),
            self.created@.len() == self.child_count(),
        ensures
            step.request@ == split_request(self.material(), self.created@),
            views(step.signing_jobs@) == split_jobs(self.material(), self.created@),
            step.signing_jobs@.len() == 2 + 5 * self.created@.len(),
            step.operation_id@ == self.split.draft@.operation_id,
            step.parent_node_id@ == self.split.parent@.id,
            step.child_values@ == self.split.draft@.child_values,
            step.signing_jobs == self.signing_jobs,
            step.operation_id@ == self.split.draft.operation_id@,
            step.parent_node_id@ == self.split.parent.id@,
            step.child_values@ == self.split.draft.child_values@,
            step.request.source.node_id@ == self.split.parent.id@,
            step.request.source.vout == 0,
            step.request.node_tx_signing_job == self.node_tx_signing_job,
            step.request.direct_node_tx_signing_job == self.direct_node_tx_signing_job,
            step.request.children == self.children,
            step.request.user_identity_public_key@ == self.split.identity_public_key@,
            step.signing_jobs@[0].verifying_public_key@ == self.split.parent.verifying_public_key@,
            step.signing_jobs@[1].verifying_public_key@ == self.split.parent.verifying_public_key@,
            forall|i: int, k: int|
                0 <= i < self.children@.len() && 0 <= k < 5 ==> {
                    let job = #[trigger] step.signing_jobs@[2 + 5 * i + k];
                    &&& job.owner == SplitJobOwner::Child(i as usize)
                    &&& job.signing_public_key@ == self.split.child_public_keys@[i]@
                    &&& job.verifying_public_key@ == self.child_verifying_keys@[i]@
                    &&& job.nonce@ == self.nonces@[2 + 5 * i + k]@
                },
    {
        proof {
            jobs_lie_in_blocks(self.material(), self.created@);
            assert(views(self.signing_jobs@).len() == self.signing_jobs@.len());
            assert(views(self.children@).len() == self.children@.len());
            let jobs = split_jobs(self.material(), self.created@);
            assert(self.signing_jobs@[0]@ == jobs.take(2)[0]);
            assert(self.signing_jobs@[1]@ == jobs.take(2)[1]);
            assert forall|i: int, k: int| 0 <= i < self.children@.len() && 0 <= k < 5 implies {
                let job = #[trigger] self.signing_jobs@[2 + 5 * i + k];
                &&& job.owner == SplitJobOwner::Child(i as usize)
                &&& job.signing_public_key@ == self.split.child_public_keys@[i]@
                &&& job.verifying_public_key@ == self.child_verifying_keys@[i]@
                &&& job.nonce@ == self.nonces@[2 + 5 * i + k]@
            } by {
                planned_jobs_keep_their_keys(self.material(), self.created@, i, k);
                assert(self.signing_jobs@[2 + 5 * i + k]@ == jobs[2 + 5 * i + k]);
            }
        }
        assert(views(self.signing_jobs@).len() == self.signing_jobs@.len());
        RequestEncodingNeeded {
            request: CreateTreeRequest {
                source: first_output_of(&self.split.parent.id),
                node_tx_signing_job: self.node_tx_signing_job,
                direct_node_tx_signing_job: self.direct_node_tx_signing_job,
                children: self.children,
                user_identity_public_key: self.split.identity_public_key.serialize(),
            },
            operation_id: self.split.draft.operation_id.clone(),
            parent_node_id: self.split.parent.id.clone(),
            child_values: self.split.draft.child_values.clone(),
            signing_jobs: self.signing_jobs,
        }
    }
}

/// A split whose request has to be encoded.
pub struct RequestEncodingNeeded {
    pub request: CreateTreeRequest,
    pub operation_id: String,
    pub parent_node_id: TreeNodeId,
    pub child_values: Vec<u64>,
    pub signing_jobs: Vec<SplitSigningJobPlan>,
}

impl RequestEncodingNeeded {
    /// The plan of the split, with the encoded request.
    pub fn request_encoded(self, create_tree_request: Vec<u8>) -> (plan: LeafSplitPlan)
        ensures
            plan@ == (LeafSplitPlanView {
                operation_id: self.operation_id@,
                parent_node_id: self.parent_node_id@,
                child_values: self.child_values@,
                create_tree_request: create_tree_request@,
                signing_jobs: views(self.signing_jobs@),
            }),
            plan.operation_id == self.operation_id,
            plan.parent_node_id == self.parent_node_id,
            plan.child_values == self.child_values,
            plan.create_tree_request == create_tree_request,
            plan.signing_jobs == self.signing_jobs,
    {
        LeafSplitPlan {
            operation_id: self.operation_id,
            parent_node_id: self.parent_node_id,
            child_values: self.child_values,
            create_tree_request,
            signing_jobs: self.signing_jobs,
        }
    }
}

/// The jobs of a split lie in blocks: two of the leaf, then five of each child. The job at each
/// place has the nonce at that place, so no two jobs share one.
pub proof fn jobs_lie_in_blocks(material: SplitMaterial, children: Seq<ChildTransactionsView>)
    ensures
        split_jobs(material, children).len() == 2 + 5 * children.len(),
        split_jobs(material, children).take(2) == root_jobs(material),
        forall|i: int, k: int|
            0 <= i < children.len() && 0 <= k < 5 ==> #[trigger] split_jobs(
                material,
                children,
            )[2 + 5 * i + k] == #[trigger] child_jobs(material, i, children[i])[k],
        forall|j: int|
            0 <= j < 2 + 5 * children.len() ==> (#[trigger] split_jobs(material, children)[j]).nonce
                == material.nonces[j],
    decreases children.len(),
{
    let jobs = split_jobs(material, children);
    if children.len() == 0 {
        assert(jobs.take(2) =~= root_jobs(material));
    } else {
        let rest = children.drop_last();
        let n = rest.len() as int;
        jobs_lie_in_blocks(material, rest);
        let before = split_jobs(material, rest);
        assert(jobs.take(2) =~= before.take(2));
        let last = child_jobs(material, n, children[n]);
        assert(jobs =~= before + last);
        assert forall|i: int, k: int| 0 <= i < children.len() && 0 <= k < 5 implies #[trigger] jobs[
            2 + 5 * i + k] == #[trigger] child_jobs(material, i, children[i])[k] by {
            if i < n {
                assert(rest[i] == children[i]);
                assert(before[2 + 5 * i + k] == child_jobs(material, i, rest[i])[k]);
            } else {
                assert(jobs[2 + 5 * n + k] == last[k]);
            }
        }
        assert forall|j: int| 0 <= j < 2 + 5 * children.len() implies (#[trigger] jobs[j]).nonce
            == material.nonces[j] by {
            if j < 2 + 5 * n {
                assert(jobs[j] == before[j]);
            } else {
                let k = j - (2 + 5 * n);
                assert(jobs[j] == last[k]);
                assert(k == 0 || k == 1 || k == 2 || k == 3 || k == 4);
            }
        }
    }
}

/// Every job of a split verifies under a key of its own node: the jobs of the leaf under the
/// leaf's verifying key, and all five jobs of a child under the verifying key that the operators
/// gave for that child. Each is signed with the wallet's key of the same node, signs the
/// transaction of its place, and spends what that transaction spends.
pub proof fn planned_jobs_keep_their_keys(
    material: SplitMaterial,
    children: Seq<ChildTransactionsView>,
    i: int,
    k: int,
)
    requires
        0 <= i < children.len(),
        0 <= k < 5,
    ensures
        forall|j: int|
            0 <= j < 2 ==> {
                let job = #[trigger] split_jobs(material, children)[j];
                &&& job.owner == SplitJobOwner::Parent
                &&& job.signing_public_key == material.parent_public_key
                &&& job.verifying_public_key == material.parent_verifying_key
                &&& job.previous_output_value == material.parent_output.value
                &&& job.previous_output_script == material.parent_output.script_pubkey
                &&& job.nonce == material.nonces[j]
            },
        split_jobs(material, children)[0].transaction == consensus_bytes(material.split_tx),
        split_jobs(material, children)[1].transaction == consensus_bytes(material.direct_split_tx),
        ({
            let job = split_jobs(material, children)[2 + 5 * i + k];
            let child = children[i];
            let spent = if k < 2 {
                material.split_tx.outputs[i]
            } else if k == 3 {
                child.direct_node_tx.outputs[0]
            } else {
                child.node_tx.outputs[0]
            };
            &&& job.owner == SplitJobOwner::Child(i as usize)
            &&& job.signing_public_key == material.child_public_keys[i]
            &&& job.verifying_public_key == material.child_verifying_keys[i]
            &&& job.nonce == material.nonces[2 + 5 * i + k]
            &&& job.previous_output_value == spent.value
            &&& job.previous_output_script == spent.script_pubkey
            &&& k == 0 ==> job.transaction == consensus_bytes(child.node_tx)
            &&& k == 1 ==> job.transaction == consensus_bytes(child.direct_node_tx)
            &&& k == 2 ==> job.transaction == consensus_bytes(child.refund_tx)
            &&& k == 3 ==> job.transaction == consensus_bytes(child.direct_refund_tx)
            &&& k == 4 ==> job.transaction == consensus_bytes(child.direct_from_cpfp_refund_tx)
        }),
{
    jobs_lie_in_blocks(material, children);
    let jobs = split_jobs(material, children);
    assert(jobs[0] == jobs.take(2)[0]);
    assert(jobs[1] == jobs.take(2)[1]);
    assert(jobs[2 + 5 * i + k] == child_jobs(material, i, children[i])[k]);
    assert(k == 0 || k == 1 || k == 2 || k == 3 || k == 4);
}

/// Whether a job that the operators are asked for is the one that was kept: the same transaction,
/// key and nonce commitments.
pub open spec fn same_job(
    asked: crate::leaf_split::messages::SigningJobView,
    kept: SplitSigningJobPlanView,
) -> bool {
    &&& asked.raw_tx == kept.transaction
    &&& asked.signing_public_key == kept.signing_public_key
    &&& asked.signing_nonce_commitment matches Some(commitment) && {
        &&& commitment.hiding == kept.nonce.hiding_commitment
        &&& commitment.binding == kept.nonce.binding_commitment
    }
}

/// The operators are asked to sign exactly the jobs that the plan keeps, each at its place.
pub proof fn request_asks_for_planned_jobs(
    material: SplitMaterial,
    children: Seq<ChildTransactionsView>,
    i: int,
)
    requires
        0 <= i < children.len(),
    ensures
        same_job(
            split_request(material, children).node_tx_signing_job,
            split_jobs(material, children)[0],
        ),
        same_job(
            split_request(material, children).direct_node_tx_signing_job,
            split_jobs(material, children)[1],
        ),
        same_job(
            split_request(material, children).children[i].node_tx_signing_job,
            split_jobs(material, children)[2 + 5 * i],
        ),
        same_job(
            split_request(material, children).children[i].direct_node_tx_signing_job,
            split_jobs(material, children)[2 + 5 * i + 1],
        ),
        same_job(
            split_request(material, children).children[i].refund_tx_signing_job,
            split_jobs(material, children)[2 + 5 * i + 2],
        ),
        same_job(
            split_request(material, children).children[i].direct_refund_tx_signing_job,
            split_jobs(material, children)[2 + 5 * i + 3],
        ),
        same_job(
            split_request(material, children).children[i].direct_from_cpfp_refund_tx_signing_job,
            split_jobs(material, children)[2 + 5 * i + 4],
        ),
{
    jobs_lie_in_blocks(material, children);
    let jobs = split_jobs(material, children);
    let block = child_jobs(material, i, children[i]);
    assert(jobs[0] == jobs.take(2)[0]);
    assert(jobs[1] == jobs.take(2)[1]);
    assert(jobs[2 + 5 * i + 0] == block[0]);
    assert(jobs[2 + 5 * i + 1] == block[1]);
    assert(jobs[2 + 5 * i + 2] == block[2]);
    assert(jobs[2 + 5 * i + 3] == block[3]);
    assert(jobs[2 + 5 * i + 4] == block[4]);
}

} // verus!

//! What a split is made of: drafts, plans and their signing jobs, and the rules that a split has
//! to meet.

use vstd::prelude::*;

use crate::error::{ServiceError, ServiceErrorView};
use crate::frost::{
    FrostDerivation, FrostDerivationView, PreparedFrostNonce, PreparedFrostNonceView,
};
use crate::keys::PublicKey;
use crate::leaf_split::messages::{
    SigningCommitment, SigningCommitmentView, SigningJob, SigningJobView,
};
use crate::model::{copy_byte_strings, copy_bytes, view_result, views};
use crate::text::{decimal, decimal_digits, join3, join4};
use crate::transaction::{
    consensus_bytes, consensus_decoded, decode_transaction, encode_transaction, Transaction,
    TransactionView, TxOut, TxOutView,
};
use crate::tree::{TreeNode, TreeNodeId, TreeNodeStatus, TreeNodeView};

verus! {

/// Whose key signs a job: the leaf being split, or the child at a position.
#[derive(Debug, PartialEq, Eq, Clone, Copy, Structural)]
pub enum SplitJobOwner {
    Parent,
    Child(usize),
}

/// A transaction to sign, with all that its signature needs besides the operators' answer.
#[derive(Debug, PartialEq, Eq)]
pub struct SplitSigningJobPlan {
    pub owner: SplitJobOwner,
    pub transaction: Vec<u8>,
    pub previous_output_value: u64,
    pub previous_output_script: Vec<u8>,
    pub signing_public_key: Vec<u8>,
    pub verifying_public_key: Vec<u8>,
    pub nonce: PreparedFrostNonce,
}

/// The view of a `SplitSigningJobPlan`.
pub struct SplitSigningJobPlanView {
    pub owner: SplitJobOwner,
    pub transaction: Seq<u8>,
    pub previous_output_value: u64,
    pub previous_output_script: Seq<u8>,
    pub signing_public_key: Seq<u8>,
    pub verifying_public_key: Seq<u8>,
    pub nonce: PreparedFrostNonceView,
}

impl View for SplitSigningJobPlan {
    type V = SplitSigningJobPlanView;

    open spec fn view(&self) -> SplitSigningJobPlanView {
        SplitSigningJobPlanView {
            owner: self.owner,
            transaction: self.transaction@,
            previous_output_value: self.previous_output_value,
            previous_output_script: self.previous_output_script@,
            signing_public_key: self.signing_public_key@,
            verifying_public_key: self.verifying_public_key@,
            nonce: self.nonce@,
        }
    }
}

impl Clone for SplitSigningJobPlan {
    fn clone(&self) -> (copy: Self)
        ensures
            copy@ == self@,
    {
        SplitSigningJobPlan {
            owner: self.owner,
            transaction: copy_bytes(&self.transaction),
            previous_output_value: self.previous_output_value,
            previous_output_script: copy_bytes(&self.previous_output_script),
            signing_public_key: copy_bytes(&self.signing_public_key),
            verifying_public_key: copy_bytes(&self.verifying_public_key),
            nonce: self.nonce.clone(),
        }
    }
}

/// Fully prepared split request. Persist this before submission: submitting the same plan again
/// reuses both the idempotency key and the nonce commitments.
#[derive(Debug, PartialEq, Eq)]
pub struct LeafSplitPlan {
    pub operation_id: String,
    pub parent_node_id: TreeNodeId,
    pub child_values: Vec<u64>,
    /// The encoded request to the operators.
    pub create_tree_request: Vec<u8>,
    pub signing_jobs: Vec<SplitSigningJobPlan>,
}

/// The view of a `LeafSplitPlan`.
pub struct LeafSplitPlanView {
    pub operation_id: Seq<char>,
    pub parent_node_id: Seq<char>,
    pub child_values: Seq<u64>,
    pub create_tree_request: Seq<u8>,
    pub signing_jobs: Seq<SplitSigningJobPlanView>,
}

impl View for LeafSplitPlan {
    type V = LeafSplitPlanView;

    open spec fn view(&self) -> LeafSplitPlanView {
        LeafSplitPlanView {
            operation_id: self.operation_id@,
            parent_node_id: self.parent_node_id@,
            child_values: self.child_values@,
            create_tree_request: self.create_tree_request@,
            signing_jobs: views(self.signing_jobs@),
        }
    }
}

impl Clone for LeafSplitPlan {
    fn clone(&self) -> (copy: Self)
        ensures
            copy@ == self@,
    {
        let signing_jobs = self.signing_jobs.clone();
        assert(views(signing_jobs@) =~= views(self.signing_jobs@));
        LeafSplitPlan {
            operation_id: self.operation_id.clone(),
            parent_node_id: self.parent_node_id.clone(),
            child_values: self.child_values.clone(),
            create_tree_request: copy_bytes(&self.create_tree_request),
            signing_jobs,
        }
    }
}

/// Local-only first phase of a split. The signer has durably stored the child keys when this is
/// made; no operator has been asked yet.
#[derive(Debug, PartialEq, Eq)]
pub struct LeafSplitDraft {
    pub operation_id: String,
    pub parent_node_id: TreeNodeId,
    pub child_values: Vec<u64>,
    pub child_public_keys: Vec<Vec<u8>>,
}

/// The view of a `LeafSplitDraft`.
pub struct LeafSplitDraftView {
    pub operation_id: Seq<char>,
    pub parent_node_id: Seq<char>,
    pub child_values: Seq<u64>,
    pub child_public_keys: Seq<Seq<u8>>,
}

impl View for LeafSplitDraft {
    type V = LeafSplitDraftView;

    open spec fn view(&self) -> LeafSplitDraftView {
        LeafSplitDraftView {
            operation_id: self.operation_id@,
            parent_node_id: self.parent_node_id@,
            child_values: self.child_values@,
            child_public_keys: views(self.child_public_keys@),
        }
    }
}

impl Clone for LeafSplitDraft {
    fn clone(&self) -> (copy: Self)
        ensures
            copy@ == self@,
    {
        LeafSplitDraft {
            operation_id: self.operation_id.clone(),
            parent_node_id: self.parent_node_id.clone(),
            child_values: self.child_values.clone(),
            child_public_keys: copy_byte_strings(&self.child_public_keys),
        }
    }
}

/// The operators' response paired with its exact plan. Persist this before finalization.
#[derive(Debug, PartialEq, Eq)]
pub struct SubmittedLeafSplit {
    pub plan: LeafSplitPlan,
    /// The encoded response of the operators.
    pub create_tree_response: Vec<u8>,
}

/// The view of a `SubmittedLeafSplit`.
pub struct SubmittedLeafSplitView {
    pub plan: LeafSplitPlanView,
    pub create_tree_response: Seq<u8>,
}

impl View for SubmittedLeafSplit {
    type V = SubmittedLeafSplitView;

    open spec fn view(&self) -> SubmittedLeafSplitView {
        SubmittedLeafSplitView {
            plan: self.plan@,
            create_tree_response: self.create_tree_response@,
        }
    }
}

impl Clone for SubmittedLeafSplit {
    fn clone(&self) -> (copy: Self)
        ensures
            copy@ == self@,
    {
        SubmittedLeafSplit {
            plan: self.plan.clone(),
            create_tree_response: copy_bytes(&self.create_tree_response),
        }
    }
}

/// The leaves that a split gave, each as the operators describe it (`N`).
#[derive(Debug, Clone, PartialEq, Eq)]
pub struct SplitLeafResult<N> {
    pub children: Vec<N>,
}

/// The sum of the values.
pub open spec fn total_value(values: Seq<u64>) -> nat
    decreases values.len(),
{
    if values.len() == 0 {
        0
    } else {
        total_value(values.drop_last()) + values.last() as nat
    }
}

/// Why a leaf must not be split into these values, if it must not. The first reason counts.
pub open spec fn split_refusal(
    operation_id: Seq<char>,
    parent: TreeNodeView,
    child_values: Seq<u64>,
) -> Option<ServiceErrorView> {
    if operation_id.len() == 0 {
        Some(ServiceErrorView::InvalidInput("split operation ID must not be empty"@))
    } else if parent.status != TreeNodeStatus::Available {
        Some(
            ServiceErrorView::InvalidInput(
                "parent leaf "@ + parent.id + " is not available"@,
            ),
        )
    } else if child_values.len() < 2 || child_values.contains(0) {
        Some(
            ServiceErrorView::InvalidInput(
                "a split requires at least two non-zero child values"@,
            ),
        )
    } else if total_value(child_values) > u64::MAX {
        Some(ServiceErrorView::InvalidInput("split value overflow"@))
    } else if total_value(child_values) != parent.value {
        Some(
            ServiceErrorView::InvalidInput(
                "split children total "@ + decimal_digits(total_value(child_values))
                    + " does not equal parent value "@ + decimal_digits(parent.value as nat),
            ),
        )
    } else {
        None
    }
}

/// A refusal as a result.
pub open spec fn unless_refused<T>(refusal: Option<ServiceErrorView>, value: T) -> Result<
    T,
    ServiceErrorView,
> {
    match refusal {
        Some(error) => Err(error),
        None => Ok(value),
    }
}

/// A split that is accepted keeps the value of the leaf, and each child is worth something and
/// less than the leaf.
pub proof fn accepted_split_keeps_value(
    operation_id: Seq<char>,
    parent: TreeNodeView,
    child_values: Seq<u64>,
)
    requires
        split_refusal(operation_id, parent, child_values) is None,
    ensures
        total_value(child_values) == parent.value,
        forall|i: int|
            0 <= i < child_values.len() ==> 0 < #[trigger] child_values[i] < parent.value,
{
    assert forall|i: int| 0 <= i < child_values.len() implies 0 < #[trigger] child_values[i]
        < parent.value by {
        let j = if i == 0 { 1int } else { 0int };
        assert(child_values.contains(child_values[i]));
        assert(child_values.contains(child_values[j]));
        if i < j {
            lemma_total_of_two(child_values, i, j);
        } else {
            lemma_total_of_two(child_values, j, i);
        }
    }
}

/// The sum of values does not depend on how they are grouped: that of two lists in a row is the sum
/// of their sums, one value is its own sum, and no values sum to nothing.
pub proof fn totals_add_up(first: Seq<u64>, second: Seq<u64>, value: u64)
    ensures
        total_value(first + second) == total_value(first) + total_value(second),
        total_value(seq![value]) == value,
        total_value(Seq::<u64>::empty()) == 0,
    decreases second.len(),
{
    assert(seq![value].drop_last() =~= Seq::<u64>::empty());
    assert(total_value(Seq::<u64>::empty()) == 0);
    assert(total_value(seq![value]) == total_value(seq![value].drop_last()) + seq![value].last());
    if second.len() == 0 {
        assert(first + second =~= first);
    } else {
        assert((first + second).drop_last() =~= first + second.drop_last());
        totals_add_up(first, second.drop_last(), value);
    }
}

/// A split that keeps the rules is accepted, whatever the number of its children: a named
/// operation, an available leaf, and at least two values, none of them zero, that add up to the
/// leaf's. Nothing else is accepted.
pub proof fn split_by_the_rules_is_accepted(
    operation_id: Seq<char>,
    parent: TreeNodeView,
    child_values: Seq<u64>,
)
    ensures
        split_refusal(operation_id, parent, child_values) is None <==> {
            &&& operation_id.len() > 0
            &&& parent.status == TreeNodeStatus::Available
            &&& child_values.len() >= 2
            &&& forall|i: int| 0 <= i < child_values.len() ==> #[trigger] child_values[i] > 0
            &&& total_value(child_values) == parent.value
        },
{
    if !child_values.contains(0) {
        assert forall|i: int| 0 <= i < child_values.len() implies #[trigger] child_values[i]
            > 0 by {
            assert(child_values.contains(child_values[i]));
        }
    }
}

/// A refused split is refused for the first rule that it breaks: the operation's name, then the
/// leaf, then the number and the size of the values, then their sum.
pub proof fn refusal_names_the_first_broken_rule(
    operation_id: Seq<char>,
    parent: TreeNodeView,
    child_values: Seq<u64>,
)
    ensures
        ({
            let refusal = split_refusal(operation_id, parent, child_values);
            let named = operation_id.len() > 0;
            let available = named && parent.status == TreeNodeStatus::Available;
            let sized = available && child_values.len() >= 2 && !child_values.contains(0);
            &&& !named ==> refusal == Some(
                ServiceErrorView::InvalidInput("split operation ID must not be empty"@),
            )
            &&& named && !available ==> refusal == Some(
                ServiceErrorView::InvalidInput("parent leaf "@ + parent.id + " is not available"@),
            )
            &&& available && !sized ==> refusal == Some(
                ServiceErrorView::InvalidInput(
                    "a split requires at least two non-zero child values"@,
                ),
            )
            &&& sized && total_value(child_values) > u64::MAX ==> refusal == Some(
                ServiceErrorView::InvalidInput("split value overflow"@),
            )
            &&& sized && total_value(child_values) <= u64::MAX && total_value(child_values)
                != parent.value ==> refusal == Some(
                ServiceErrorView::InvalidInput(
                    "split children total "@ + decimal_digits(total_value(child_values))
                        + " does not equal parent value "@ + decimal_digits(parent.value as nat),
                ),
            )
        }),
{
}

proof fn lemma_total_of_two(values: Seq<u64>, i: int, j: int)
    requires
        0 <= i < j < values.len(),
    ensures
        total_value(values) >= values[i] + values[j],
    decreases values.len(),
{
    if j == values.len() - 1 {
        lemma_total_of_one(values.drop_last(), i);
    } else {
        lemma_total_of_two(values.drop_last(), i, j);
    }
}

proof fn lemma_total_of_one(values: Seq<u64>, i: int)
    requires
        0 <= i < values.len(),
    ensures
        total_value(values) >= values[i],
    decreases values.len(),
{
    if i < values.len() - 1 {
        lemma_total_of_one(values.drop_last(), i);
    }
}

proof fn lemma_total_grows(values: Seq<u64>, i: int)
    requires
        0 <= i <= values.len(),
    ensures
        total_value(values.take(i)) <= total_value(values),
    decreases values.len() - i,
{
    if i == values.len() {
        assert(values.take(i) =~= values);
    } else {
        assert(values.take(i + 1).drop_last() =~= values.take(i));
        lemma_total_grows(values, i + 1);
    }
}

/// Whether any of the values is zero.
fn has_zero(values: &[u64]) -> (found: bool)
    ensures
        found == values@.contains(0),
{
    let mut i: usize = 0;
    while i < values.len()
        invariant
            i <= values@.len(),
            forall|j: int| 0 <= j < i ==> values@[j] != 0,
        decreases values@.len() - i,
    {
        if values[i] == 0 {
            return true;
        }
        i = i + 1;
    }
    false
}

/// The sum of the values, unless it is too large.
fn checked_total(values: &[u64]) -> (total: Option<u64>)
    ensures
        match total {
            Some(sum) => sum == total_value(values@),
            None => total_value(values@) > u64::MAX,
        },
{
    let mut sum: u64 = 0;
    let mut i: usize = 0;
    while i < values.len()
        invariant
            i <= values@.len(),
            sum == total_value(values@.take(i as int)),
        decreases values@.len() - i,
    {
        assert(values@.take(i + 1).drop_last() =~= values@.take(i as int));
        match sum.checked_add(values[i]) {
            Some(next) => {
                sum = next;
            },
            None => {
                proof {
                    lemma_total_grows(values@, i + 1);
                }
                return None;
            },
        }
        i = i + 1;
    }
    assert(values@.take(i as int) =~= values@);
    Some(sum)
}

/// Refuses a split that has no operation id, whose leaf is not available, or whose children are
/// not at least two non-zero values that add up to the leaf's.
pub fn validate_split(operation_id: &str, parent: &TreeNode, child_values: &[u64]) -> (result:
    Result<(), ServiceError>)
    ensures
        view_result(result) == unless_refused(
            split_refusal(operation_id@, parent@, child_values@),
            (),
        ),
        result is Ok <==> {
            &&& operation_id@.len() > 0
            &&& parent.status == TreeNodeStatus::Available
            &&& child_values@.len() >= 2
            &&& forall|i: int| 0 <= i < child_values@.len() ==> #[trigger] child_values@[i] > 0
            &&& total_value(child_values@) == parent.value
        },
{
    proof {
        split_by_the_rules_is_accepted(operation_id@, parent@, child_values@);
    }
    if operation_id.is_empty() {
        return Err(
            ServiceError::InvalidInput("split operation ID must not be empty".to_string()),
        );
    }
    if parent.status != TreeNodeStatus::Available {
        return Err(
            ServiceError::InvalidInput(
                join3("parent leaf ", parent.id.id.as_str(), " is not available"),
            ),
        );
    }
    if child_values.len() < 2 || has_zero(child_values) {
        return Err(
            ServiceError::InvalidInput(
                "a split requires at least two non-zero child values".to_string(),
            ),
        );
    }
    let total: u64 = match checked_total(child_values) {
        Some(total) => total,
        None => return Err(ServiceError::InvalidInput("split value overflow".to_string())),
    };
    if total != parent.value {
        let found = decimal(total);
        let expected = decimal(parent.value);
        return Err(
            ServiceError::InvalidInput(
                join4(
                    "split children total ",
                    found.as_str(),
                    " does not equal parent value ",
                    expected.as_str(),
                ),
            ),
        );
    }
    Ok(())
}

/// Takes the next of the prepared nonces, in order.
pub fn next_nonce(nonces: &Vec<PreparedFrostNonce>, taken: &mut usize) -> (result: Result<
    PreparedFrostNonce,
    ServiceError,
>)
    ensures
        *old(taken) < nonces@.len() ==> {
            &&& *final(taken) == *old(taken) + 1
            &&& view_result(result) == Ok::<PreparedFrostNonceView, ServiceErrorView>(
                nonces@[*old(taken) as int]@,
            )
        },
        *old(taken) >= nonces@.len() ==> {
            &&& *final(taken) == *old(taken)
            &&& view_result(result) == Err::<PreparedFrostNonceView, ServiceErrorView>(
                missing_nonce(),
            )
        },
{
    if *taken < nonces.len() {
        let nonce = nonces[*taken].clone();
        *taken = *taken + 1;
        Ok(nonce)
    } else {
        Err(ServiceError::Generic("missing prepared split nonce".to_string()))
    }
}

/// The error of a split that ran out of nonces.
pub open spec fn missing_nonce() -> ServiceErrorView {
    ServiceErrorView::Generic("missing prepared split nonce"@)
}

/// What the operators are told of a transaction to sign.
pub open spec fn job_request(
    tx: TransactionView,
    public_key: Seq<u8>,
    nonce: PreparedFrostNonceView,
) -> SigningJobView {
    SigningJobView {
        signing_public_key: public_key,
        raw_tx: consensus_bytes(tx),
        signing_nonce_commitment: Some(
            SigningCommitmentView {
                hiding: nonce.hiding_commitment,
                binding: nonce.binding_commitment,
            },
        ),
    }
}

/// The request to the operators to sign a transaction with the wallet's key and nonce.
pub fn proto_job(tx: &Transaction, public_key: PublicKey, nonce: &PreparedFrostNonce) -> (job:
    SigningJob)
    ensures
        job@ == job_request(tx@, public_key@, nonce@),
        job.signing_public_key@ == public_key@,
        job.raw_tx@ == consensus_bytes(tx@),
        job.signing_nonce_commitment matches Some(commitment) && commitment.hiding@
            == nonce.hiding_commitment@ && commitment.binding@ == nonce.binding_commitment@,
{
    SigningJob {
        signing_public_key: public_key.serialize(),
        raw_tx: encode_transaction(tx),
        signing_nonce_commitment: Some(
            SigningCommitment {
                hiding: copy_bytes(&nonce.hiding_commitment),
                binding: copy_bytes(&nonce.binding_commitment),
            },
        ),
    }
}

/// What is kept of a transaction to sign.
pub open spec fn planned_signing(
    owner: SplitJobOwner,
    tx: TransactionView,
    previous_output: TxOutView,
    signing_public_key: Seq<u8>,
    verifying_public_key: Seq<u8>,
    nonce: PreparedFrostNonceView,
) -> SplitSigningJobPlanView {
    SplitSigningJobPlanView {
        owner,
        transaction: consensus_bytes(tx),
        previous_output_value: previous_output.value,
        previous_output_script: previous_output.script_pubkey,
        signing_public_key,
        verifying_public_key,
        nonce,
    }
}

/// Keeps what the signature of a transaction will need. The transaction is read back from
/// it, unless it has a witness that is too large.
pub fn job_plan(
    owner: SplitJobOwner,
    tx: &Transaction,
    previous_output: &TxOut,
    signing_public_key: PublicKey,
    verifying_public_key: PublicKey,
    nonce: PreparedFrostNonce,
) -> (plan: SplitSigningJobPlan)
    ensures
        plan@ == planned_signing(
            owner,
            tx@,
            previous_output@,
            signing_public_key@,
            verifying_public_key@,
            nonce@,
        ),
        plan@.decoded_transaction() == if tx@.has_small_witnesses() {
            Ok::<TransactionView, ServiceErrorView>(tx@)
        } else {
            Err(ServiceErrorView::InvalidTransaction)
        },
        plan@.decoded_previous_output() == previous_output@,
        plan.owner == owner,
        plan.transaction@ == consensus_bytes(tx@),
        plan.previous_output_value == previous_output.value,
        plan.previous_output_script@ == previous_output.script_pubkey@,
        plan.signing_public_key@ == signing_public_key@,
        plan.verifying_public_key@ == verifying_public_key@,
        plan.nonce == nonce,
{
    SplitSigningJobPlan {
        owner,
        transaction: encode_transaction(tx),
        previous_output_value: previous_output.value,
        previous_output_script: copy_bytes(&previous_output.script_pubkey),
        signing_public_key: signing_public_key.serialize(),
        verifying_public_key: verifying_public_key.serialize(),
        nonce,
    }
}

impl SplitSigningJobPlanView {
    /// The transaction to sign.
    pub open spec fn decoded_transaction(self) -> Result<TransactionView, ServiceErrorView> {
        match consensus_decoded(self.transaction) {
            Ok(tx) => Ok(tx),
            Err(_) => Err(ServiceErrorView::InvalidTransaction),
        }
    }

    /// The output that the transaction spends.
    pub open spec fn decoded_previous_output(self) -> TxOutView {
        TxOutView {
            value: self.previous_output_value,
            script_pubkey: self.previous_output_script,
        }
    }

    /// The key that signs: the leaf's, or that of the owning child, once the ids are known.
    pub open spec fn signing_derivation(
        self,
        parent_id: Seq<char>,
        child_node_ids: Seq<Seq<char>>,
    ) -> Result<FrostDerivationView, ServiceErrorView> {
        match self.owner {
            SplitJobOwner::Parent => Ok(FrostDerivationView::SigningLeaf { leaf_id: parent_id }),
            SplitJobOwner::Child(index) => if index < child_node_ids.len() {
                Ok(FrostDerivationView::SigningLeaf { leaf_id: child_node_ids[index as int] })
            } else {
                Err(ServiceErrorView::Generic("missing split child node ID"@))
            },
        }
    }
}

impl SplitSigningJobPlan {
    /// The transaction to sign.
    pub fn transaction(&self) -> (result: Result<Transaction, ServiceError>)
        ensures
            view_result(result) == self@.decoded_transaction(),
            match result {
                Ok(tx) => consensus_decoded(self.transaction@) == Ok::<TransactionView, Seq<char>>(
                    tx@,
                ),
                Err(error) => consensus_decoded(self.transaction@) is Err && error@
                    == ServiceErrorView::InvalidTransaction,
            },
    {
        match decode_transaction(self.transaction.as_slice()) {
            Ok(tx) => Ok(tx),
            Err(_) => Err(ServiceError::InvalidTransaction),
        }
    }

    /// The output that the transaction spends.
    pub fn previous_output(&self) -> (output: TxOut)
        ensures
            output@ == self@.decoded_previous_output(),
            output.value == self.previous_output_value,
            output.script_pubkey@ == self.previous_output_script@,
    {
        TxOut {
            value: self.previous_output_value,
            script_pubkey: copy_bytes(&self.previous_output_script),
        }
    }

    /// The key that signs.
    pub fn derivation(&self, parent_id: &TreeNodeId, child_node_ids: &[TreeNodeId]) -> (result:
        Result<FrostDerivation, ServiceError>)
        ensures
            view_result(result) == self@.signing_derivation(parent_id@, views(child_node_ids@)),
            match self.owner {
                SplitJobOwner::Parent => result matches Ok(FrostDerivation::SigningLeaf { leaf_id })
                    && leaf_id@ == parent_id@,
                SplitJobOwner::Child(index) => if index < child_node_ids@.len() {
                    result matches Ok(FrostDerivation::SigningLeaf { leaf_id }) && leaf_id@
                        == child_node_ids@[index as int]@
                } else {
                    result matches Err(error) && error@ == ServiceErrorView::Generic(
                        "missing split child node ID"@,
                    )
                },
            },
    {
        match self.owner {
            SplitJobOwner::Parent => Ok(
                FrostDerivation::SigningLeaf { leaf_id: parent_id.clone() },
            ),
            SplitJobOwner::Child(child_index) => {
                if child_index < child_node_ids.len() {
                    Ok(
                        FrostDerivation::SigningLeaf {
                            leaf_id: child_node_ids[child_index].clone(),
                        },
                    )
                } else {
                    Err(ServiceError::Generic("missing split child node ID".to_string()))
                }
            },
        }
    }
}

} // verus!

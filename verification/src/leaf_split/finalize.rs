//! From the plan of a split to its leaves: submission, signing and finalization.

use vstd::prelude::*;

use crate::error::{ServiceError, ServiceErrorView};
use crate::frost::{
    AggregateFrostRequest, AggregateFrostRequestView, FrostDerivation, FrostJob, FrostJobView,
    FrostShareResult, FrostShareResultView, PreparedFrostNonce, SigningResult, SigningResultView,
};
use crate::keys::{parsed_public_key, PublicKey};
use crate::leaf_split::messages::{
    CreationResponseNode, FinalizeNodeSignaturesRequest, FinalizeNodeSignaturesRequestView,
    NodeSignatures, NodeSignaturesView, OperatorPool, SignatureIntent,
};
use crate::leaf_split::plan::{
    LeafSplitPlan, SplitJobOwner, SplitLeafResult, SplitSigningJobPlanView, SubmittedLeafSplit,
    SubmittedLeafSplitView,
};
use crate::leaf_split::prepare::{
    child_jobs, jobs_lie_in_blocks, read_public_key, read_verifying_key, split_jobs,
    ChildTransactionsView, LeafSplitService, SplitMaterial,
};
use crate::model::{collected, copy_bytes, lemma_collected_error, lemma_collected_step, views};
use crate::signer::requests::{BindLeafSplitKeysRequest, BindLeafSplitKeysRequestView};
use crate::text::{decimal, decimal_digits, join, join4};
use crate::transaction::{consensus_bytes, consensus_decoded, Transaction, TransactionView, TxOut};
use crate::tree::{contains_id, TreeNodeId};

verus! {

impl LeafSplitService {
    /// Submits exactly the persisted plan, given whether its request can be read: hands the
    /// private operators the plan's own request under the plan's own operation id, however often
    /// it is submitted.
    pub fn submit_split(&self, plan: LeafSplitPlan, readable: Result<(), String>) -> (result:
        Result<SubmissionNeeded, ServiceError>)
        ensures
            match result {
                Ok(step) => {
                    &&& readable is Ok
                    &&& step.pool == OperatorPool::Private
                    &&& step.plan == plan
                    &&& step.request@ == plan@.create_tree_request
                    &&& step.idempotency_key@ == plan@.operation_id
                },
                Err(error) => readable matches Err(message) && error@
                    == ServiceErrorView::Generic("invalid split plan: "@ + message@),
            },
            result is Ok <==> readable is Ok,
            result matches Ok(step) ==> {
                &&& step.request@ == plan.create_tree_request@
                &&& step.idempotency_key@ == plan.operation_id@
            },
    {
        match readable {
            Ok(_) => {},
            Err(message) => {
                return Err(ServiceError::Generic(join("invalid split plan: ", message.as_str())));
            },
        }
        Ok(
            SubmissionNeeded {
                pool: OperatorPool::Private,
                request: copy_bytes(&plan.create_tree_request),
                idempotency_key: plan.operation_id.clone(),
                plan,
            },
        )
    }

    /// Starts the finalization of a submitted split, given what its response reads as: asks the
    /// signer to give the prepared keys to the created leaves, before anything is signed.
    pub fn finalize_split<'a, R>(
        &self,
        submitted: &'a SubmittedLeafSplit,
        response: Result<Option<&'a CreationResponseNode<R>>, String>,
    ) -> (result: Result<KeyBindingNeeded<'a, R>, ServiceError>)
        ensures
            match result {
                Ok(step) => {
                    &&& created_ids(response, submitted@.plan.child_values.len()) == Ok::<
                        Seq<Seq<char>>,
                        ServiceErrorView,
                    >(views(step.child_node_ids@))
                    &&& step.request@ == (BindLeafSplitKeysRequestView {
                        operation_id: submitted@.plan.operation_id,
                        child_node_ids: views(step.child_node_ids@),
                    })
                    &&& step.submitted == submitted
                    &&& step.root == response->Ok_0->Some_0
                    &&& step.child_node_ids@.len() == step.root.children@.len()
                },
                Err(error) => created_ids(response, submitted@.plan.child_values.len()) == Err::<
                    Seq<Seq<char>>,
                    ServiceErrorView,
                >(error@),
            },
            result is Ok <==> {
                &&& response matches Ok(Some(root))
                &&& root.children@.len() == submitted.plan.child_values@.len()
                &&& forall|i: int|
                    0 <= i < root.children@.len() ==> (
                    #[trigger] root.children@[i]).tree_node_id is Some
            },
            result matches Err(error) ==> match response {
                Err(message) => error matches ServiceError::Generic(text) && text@
                    == "invalid submitted split: "@ + message@,
                Ok(None) => error matches ServiceError::Generic(text) && text@
                    == "missing created tree root"@,
                Ok(Some(root)) => if root.children@.len() != submitted.plan.child_values@.len() {
                    error matches ServiceError::Generic(text) && text@ == "operator created "@
                        + decimal_digits(root.children@.len()) + " children, expected "@
                        + decimal_digits(submitted.plan.child_values@.len())
                } else {
                    error is InvalidNodeId
                },
            },
            result matches Ok(step) ==> {
                let children = response->Ok_0->Some_0.children@;
                &&& step.request.operation_id@ == submitted.plan.operation_id@
                &&& step.child_node_ids@.len() == children.len()
                &&& step.request.child_node_ids@.len() == children.len()
                &&& forall|i: int|
                    0 <= i < children.len() ==> {
                        let id = (#[trigger] children[i]).tree_node_id->Some_0@;
                        &&& step.child_node_ids@[i]@ == id
                        &&& step.request.child_node_ids@[i]@ == id
                    }
            },
    {
        let root = match response {
            Ok(Some(root)) => root,
            Ok(None) => return Err(ServiceError::Generic("missing created tree root".to_string())),
            Err(message) => {
                return Err(
                    ServiceError::Generic(join("invalid submitted split: ", message.as_str())),
                );
            },
        };
        if root.children.len() != submitted.plan.child_values.len() {
            let found = decimal(root.children.len() as u64);
            let expected = decimal(submitted.plan.child_values.len() as u64);
            return Err(
                ServiceError::Generic(
                    join4(
                        "operator created ",
                        found.as_str(),
                        " children, expected ",
                        expected.as_str(),
                    ),
                ),
            );
        }
        let child_node_ids = match child_ids(&root.children) {
            Ok(ids) => ids,
            Err(error) => return Err(error),
        };
        let bound = child_node_ids.clone();
        assert(views(bound@) =~= views(child_node_ids@));
        assert(bound@.len() == views(bound@).len());
        assert forall|i: int| 0 <= i < root.children@.len() implies {
            let id = (#[trigger] root.children@[i]).tree_node_id->Some_0@;
            &&& child_node_ids@[i]@ == id
            &&& bound@[i]@ == id
        } by {
            assert(views(bound@)[i] == views(child_node_ids@)[i]);
        }
        Ok(
            KeyBindingNeeded {
                request: BindLeafSplitKeysRequest {
                    operation_id: submitted.plan.operation_id.clone(),
                    child_node_ids: bound,
                },
                submitted,
                root,
                child_node_ids,
            },
        )
    }
}

/// A plan to hand to the operators.
pub struct SubmissionNeeded {
    /// The operators that it goes to.
    pub pool: OperatorPool,
    /// The encoded request.
    pub request: Vec<u8>,
    /// The key under which the operators carry the request out once only.
    pub idempotency_key: String,
    pub plan: LeafSplitPlan,
}

impl SubmissionNeeded {
    /// Pairs the plan with the encoded response of the operators.
    pub fn submitted(self, create_tree_response: Vec<u8>) -> (submitted: SubmittedLeafSplit)
        ensures
            submitted@ == (SubmittedLeafSplitView {
                plan: self.plan@,
                create_tree_response: create_tree_response@,
            }),
            submitted.plan == self.plan,
            submitted.create_tree_response == create_tree_response,
    {
        SubmittedLeafSplit { plan: self.plan, create_tree_response }
    }
}

/// The id of a created leaf.
pub open spec fn created_id<R>(child: CreationResponseNode<R>) -> Result<
    Seq<char>,
    ServiceErrorView,
> {
    match child.tree_node_id {
        Some(id) => Ok(id@),
        None => Err(ServiceErrorView::InvalidNodeId(child.node_id@)),
    }
}

/// The ids of created leaves.
pub open spec fn created_id_list<R>(children: Seq<CreationResponseNode<R>>) -> Result<
    Seq<Seq<char>>,
    ServiceErrorView,
> {
    collected(Seq::new(children.len(), |i: int| created_id(children[i])))
}

/// The ids of the leaves that the operators created, if they created this many.
pub open spec fn created_ids<R>(
    response: Result<Option<&CreationResponseNode<R>>, String>,
    expected: nat,
) -> Result<Seq<Seq<char>>, ServiceErrorView> {
    match response {
        Err(message) => Err(ServiceErrorView::Generic("invalid submitted split: "@ + message@)),
        Ok(None) => Err(ServiceErrorView::Generic("missing created tree root"@)),
        Ok(Some(root)) => if root.children@.len() != expected {
            Err(
                ServiceErrorView::Generic(
                    "operator created "@ + decimal_digits(root.children@.len())
                        + " children, expected "@ + decimal_digits(expected),
                ),
            )
        } else {
            created_id_list(root.children@)
        },
    }
}

fn child_ids<R>(children: &Vec<CreationResponseNode<R>>) -> (result: Result<
    Vec<TreeNodeId>,
    ServiceError,
>)
    ensures
        match result {
            Ok(ids) => {
                &&& created_id_list(children@) == Ok::<Seq<Seq<char>>, ServiceErrorView>(
                    views(ids@),
                )
                &&& ids@.len() == children@.len()
            },
            Err(error) => created_id_list(children@) == Err::<Seq<Seq<char>>, ServiceErrorView>(
                error@,
            ),
        },
        match result {
            Ok(ids) => forall|i: int|
                0 <= i < children@.len() ==> {
                    &&& (#[trigger] children@[i]).tree_node_id matches Some(id)
                    &&& ids@[i]@ == id@
                },
            Err(error) => exists|i: int|
                {
                    &&& 0 <= i < children@.len()
                    &&& (#[trigger] children@[i]).tree_node_id is None
                    &&& error@ == ServiceErrorView::InvalidNodeId(children@[i].node_id@)
                    &&& forall|j: int| 0 <= j < i ==> children@[j].tree_node_id is Some
                },
        },
{
    let mut ids: Vec<TreeNodeId> = Vec::new();
    let ghost items = Seq::new(children@.len(), |i: int| created_id(children@[i]));
    assert(items.take(0) =~= Seq::empty());
    assert(views(ids@) =~= Seq::empty());
    let mut i: usize = 0;
    while i < children.len()
        invariant
            i <= children@.len(),
            ids@.len() == i,
            forall|j: int|
                0 <= j < i ==> {
                    &&& (#[trigger] children@[j]).tree_node_id matches Some(id)
                    &&& ids@[j]@ == id@
                },
            items == Seq::new(children@.len(), |i: int| created_id(children@[i])),
            collected(items.take(i as int)) == Ok::<Seq<Seq<char>>, ServiceErrorView>(
                views(ids@),
            ),
        decreases children@.len() - i,
    {
        proof {
            lemma_collected_step(items, i as int);
        }
        match &children[i].tree_node_id {
            Some(id) => {
                let ghost before = ids@;
                ids.push(id.clone());
                assert(views(ids@) =~= views(before).push(id@));
            },
            None => {
                proof {
                    lemma_collected_error(items, i + 1);
                }
                return Err(ServiceError::InvalidNodeId(children[i].node_id.clone()));
            },
        }
        i = i + 1;
    }
    assert(items.take(i as int) =~= items);
    Ok(ids)
}

/// What the operators contributed to the signatures of the root.
pub open spec fn root_slots<R>(root: CreationResponseNode<R>) -> Seq<Option<R>> {
    seq![root.node_tx_signing_result, root.direct_node_tx_signing_result]
}

/// What the operators contributed to the signatures of a child, in the order of its jobs.
pub open spec fn child_slots<R>(child: CreationResponseNode<R>) -> Seq<Option<R>> {
    seq![
        child.node_tx_signing_result,
        child.direct_node_tx_signing_result,
        child.refund_tx_signing_result,
        child.direct_refund_tx_signing_result,
        child.direct_from_cpfp_refund_tx_signing_result,
    ]
}

/// What the operators contributed to the signatures of the root and its first children.
pub open spec fn slots<R>(root: CreationResponseNode<R>, children: nat) -> Seq<Option<R>>
    decreases children,
{
    if children == 0 {
        root_slots(root)
    } else {
        slots(root, (children - 1) as nat) + child_slots(root.children@[children - 1])
    }
}

/// What the operators contributed to all signatures.
pub open spec fn result_slots<R>(root: CreationResponseNode<R>) -> Seq<Option<R>> {
    slots(root, root.children@.len())
}

/// Whether a list holds what the slots hold, and no slot is empty.
pub open spec fn fills<R>(results: Seq<&R>, slots: Seq<Option<R>>) -> bool {
    &&& results.len() == slots.len()
    &&& forall|i: int| 0 <= i < slots.len() ==> #[trigger] slots[i] == Some(*results[i])
}

/// Whether some slot is empty.
pub open spec fn has_gap<R>(slots: Seq<Option<R>>) -> bool {
    exists|i: int| 0 <= i < slots.len() && #[trigger] slots[i] is None
}

proof fn lemma_slots_blocks<R>(root: CreationResponseNode<R>, n: nat)
    requires
        n <= root.children@.len(),
    ensures
        slots(root, n).len() == 2 + 5 * n,
        slots(root, n).take(2) == root_slots(root),
        forall|i: int, k: int|
            0 <= i < n && 0 <= k < 5 ==> #[trigger] slots(root, n)[2 + 5 * i + k]
                == #[trigger] child_slots(root.children@[i])[k],
    decreases n,
{
    if n == 0 {
        assert(slots(root, n).take(2) =~= root_slots(root));
    } else {
        let m = (n - 1) as nat;
        lemma_slots_blocks(root, m);
        let before = slots(root, m);
        let last = child_slots(root.children@[m as int]);
        assert(slots(root, n) =~= before + last);
        assert(slots(root, n).take(2) =~= before.take(2));
        assert forall|i: int, k: int| 0 <= i < n && 0 <= k < 5 implies #[trigger] slots(
            root,
            n,
        )[2 + 5 * i + k] == #[trigger] child_slots(root.children@[i])[k] by {
            if i < m {
                assert(before[2 + 5 * i + k] == child_slots(root.children@[i])[k]);
            } else {
                assert(slots(root, n)[2 + 5 * m + k] == last[k]);
            }
        }
    }
}

proof fn lemma_gap_stays<R>(root: CreationResponseNode<R>, n: nat)
    requires
        n <= root.children@.len(),
        has_gap(slots(root, n)),
    ensures
        has_gap(result_slots(root)),
    decreases root.children@.len() - n,
{
    if n < root.children@.len() {
        let gap = choose|i: int| 0 <= i < slots(root, n).len() && #[trigger] slots(root, n)[i] is None;
        let next = slots(root, n + 1);
        assert(next =~= slots(root, n) + child_slots(root.children@[n as int]));
        assert(next[gap] is None);
        lemma_gap_stays(root, n + 1);
    }
}

/// The contributions to the signatures of a tree lie in blocks, as the jobs do: two of the root,
/// its node first, then five of each child. A slot is empty where the contribution of its own
/// transaction is missing, and nowhere else.
pub proof fn results_keep_their_places<R>(root: CreationResponseNode<R>)
    ensures
        result_slots(root).len() == 2 + 5 * root.children@.len(),
        result_slots(root)[0] == root.node_tx_signing_result,
        result_slots(root)[1] == root.direct_node_tx_signing_result,
        forall|i: int|
            0 <= i < root.children@.len() ==> {
                let child = #[trigger] root.children@[i];
                &&& result_slots(root)[2 + 5 * i] == child.node_tx_signing_result
                &&& result_slots(root)[3 + 5 * i] == child.direct_node_tx_signing_result
                &&& result_slots(root)[4 + 5 * i] == child.refund_tx_signing_result
                &&& result_slots(root)[5 + 5 * i] == child.direct_refund_tx_signing_result
                &&& result_slots(root)[6 + 5 * i] == child.direct_from_cpfp_refund_tx_signing_result
            },
        has_gap(result_slots(root)) <==> {
            ||| root.node_tx_signing_result is None
            ||| root.direct_node_tx_signing_result is None
            ||| exists|i: int|
                0 <= i < root.children@.len() && {
                    ||| (#[trigger] root.children@[i]).node_tx_signing_result is None
                    ||| root.children@[i].direct_node_tx_signing_result is None
                    ||| root.children@[i].refund_tx_signing_result is None
                    ||| root.children@[i].direct_refund_tx_signing_result is None
                    ||| root.children@[i].direct_from_cpfp_refund_tx_signing_result is None
                }
        },
{
    let n = root.children@.len();
    lemma_slots_blocks(root, n);
    let places = result_slots(root);
    assert(places[0] == places.take(2)[0] && places[1] == places.take(2)[1]);
    assert forall|i: int| 0 <= i < n implies {
        let child = #[trigger] root.children@[i];
        &&& places[2 + 5 * i] == child.node_tx_signing_result
        &&& places[3 + 5 * i] == child.direct_node_tx_signing_result
        &&& places[4 + 5 * i] == child.refund_tx_signing_result
        &&& places[5 + 5 * i] == child.direct_refund_tx_signing_result
        &&& places[6 + 5 * i] == child.direct_from_cpfp_refund_tx_signing_result
    } by {
        let block = child_slots(root.children@[i]);
        assert(places[2 + 5 * i + 0] == block[0]);
        assert(places[2 + 5 * i + 1] == block[1]);
        assert(places[2 + 5 * i + 2] == block[2]);
        assert(places[2 + 5 * i + 3] == block[3]);
        assert(places[2 + 5 * i + 4] == block[4]);
    }
    if has_gap(places) {
        let j = choose|j: int| 0 <= j < places.len() && #[trigger] places[j] is None;
        if j >= 2 {
            let i = (j - 2) / 5;
            let k = (j - 2) % 5;
            assert(0 <= i < n && j == 2 + 5 * i + k && 0 <= k < 5);
            let child = root.children@[i];
            assert(k == 0 || k == 1 || k == 2 || k == 3 || k == 4);
        }
    }
}

/// Adds what a slot holds.
fn take_result<'a, R>(results: &mut Vec<&'a R>, slot: &'a Option<R>) -> (result: Result<
    (),
    ServiceError,
>)
    ensures
        match result {
            Ok(_) => slot matches Some(value) && final(results)@ == old(results)@.push(value),
            Err(error) => slot is None && error@ == ServiceErrorView::MissingTreeSignatures,
        },
{
    match slot {
        Some(value) => {
            results.push(value);
            Ok(())
        },
        None => Err(ServiceError::MissingTreeSignatures),
    }
}

fn take_child_results<'a, R>(
    results: &mut Vec<&'a R>,
    child: &'a CreationResponseNode<R>,
) -> (result: Result<(), ServiceError>)
    ensures
        match result {
            Ok(_) => {
                &&& final(results)@.len() == old(results)@.len() + 5
                &&& forall|i: int|
                    0 <= i < old(results)@.len() ==> #[trigger] final(results)@[i] == old(
                        results,
                    )@[i]
                &&& forall|k: int|
                    0 <= k < 5 ==> #[trigger] child_slots(*child)[k] == Some(
                        *final(results)@[old(results)@.len() + k],
                    )
            },
            Err(error) => has_gap(child_slots(*child)) && error@
                == ServiceErrorView::MissingTreeSignatures,
        },
{
    let ghost places = child_slots(*child);
    match take_result(results, &child.node_tx_signing_result) {
        Ok(_) => {},
        Err(error) => {
            assert(places[0] is None);
            return Err(error);
        },
    }
    match take_result(results, &child.direct_node_tx_signing_result) {
        Ok(_) => {},
        Err(error) => {
            assert(places[1] is None);
            return Err(error);
        },
    }
    match take_result(results, &child.refund_tx_signing_result) {
        Ok(_) => {},
        Err(error) => {
            assert(places[2] is None);
            return Err(error);
        },
    }
    match take_result(results, &child.direct_refund_tx_signing_result) {
        Ok(_) => {},
        Err(error) => {
            assert(places[3] is None);
            return Err(error);
        },
    }
    match take_result(results, &child.direct_from_cpfp_refund_tx_signing_result) {
        Ok(_) => {},
        Err(error) => {
            assert(places[4] is None);
            return Err(error);
        },
    }
    Ok(())
}

/// What the operators contributed to all signatures, in the order of the jobs of a plan. Nothing
/// may be missing.
pub fn response_signing_results<'a, R>(root: &'a CreationResponseNode<R>) -> (result: Result<
    Vec<&'a R>,
    ServiceError,
>)
    ensures
        match result {
            Ok(results) => fills(results@, result_slots(*root)),
            Err(error) => has_gap(result_slots(*root)) && error@
                == ServiceErrorView::MissingTreeSignatures,
        },
        result is Ok <==> {
            &&& root.node_tx_signing_result is Some
            &&& root.direct_node_tx_signing_result is Some
            &&& forall|i: int|
                0 <= i < root.children@.len() ==> {
                    &&& (#[trigger] root.children@[i]).node_tx_signing_result is Some
                    &&& root.children@[i].direct_node_tx_signing_result is Some
                    &&& root.children@[i].refund_tx_signing_result is Some
                    &&& root.children@[i].direct_refund_tx_signing_result is Some
                    &&& root.children@[i].direct_from_cpfp_refund_tx_signing_result is Some
                }
        },
        result matches Ok(results) ==> {
            &&& results@.len() == 2 + 5 * root.children@.len()
            &&& root.node_tx_signing_result == Some(*results@[0])
            &&& root.direct_node_tx_signing_result == Some(*results@[1])
            &&& forall|i: int|
                0 <= i < root.children@.len() ==> {
                    let child = #[trigger] root.children@[i];
                    &&& child.node_tx_signing_result == Some(*results@[2 + 5 * i])
                    &&& child.direct_node_tx_signing_result == Some(*results@[3 + 5 * i])
                    &&& child.refund_tx_signing_result == Some(*results@[4 + 5 * i])
                    &&& child.direct_refund_tx_signing_result == Some(*results@[5 + 5 * i])
                    &&& child.direct_from_cpfp_refund_tx_signing_result == Some(
                        *results@[6 + 5 * i],
                    )
                }
        },
{
    proof {
        results_keep_their_places(*root);
    }
    let mut results: Vec<&'a R> = Vec::new();
    match take_result(&mut results, &root.node_tx_signing_result) {
        Ok(_) => {},
        Err(error) => {
            proof {
                assert(slots(*root, 0)[0] is None);
                lemma_gap_stays(*root, 0);
            }
            return Err(error);
        },
    }
    match take_result(&mut results, &root.direct_node_tx_signing_result) {
        Ok(_) => {},
        Err(error) => {
            proof {
                assert(slots(*root, 0)[1] is None);
                lemma_gap_stays(*root, 0);
            }
            return Err(error);
        },
    }
    let mut i: usize = 0;
    while i < root.children.len()
        invariant
            i <= root.children@.len(),
            fills(results@, slots(*root, i as nat)),
        decreases root.children@.len() - i,
    {
        let ghost before = results@;
        let ghost next = slots(*root, (i + 1) as nat);
        let ghost added = child_slots(root.children@[i as int]);
        assert(next =~= slots(*root, i as nat) + added);
        match take_child_results(&mut results, &root.children[i]) {
            Ok(_) => {},
            Err(error) => {
                proof {
                    let k = choose|k: int| 0 <= k < added.len() && #[trigger] added[k] is None;
                    assert(next[before.len() + k] is None);
                    lemma_gap_stays(*root, (i + 1) as nat);
                }
                return Err(error);
            },
        }
        assert forall|j: int| 0 <= j < next.len() implies #[trigger] next[j] == Some(
            *results@[j],
        ) by {
            if j < before.len() {
                assert(slots(*root, i as nat)[j] == Some(*before[j]));
            } else {
                assert(added[j - before.len()] == next[j]);
            }
        }
        i = i + 1;
    }
    proof {
        let places = result_slots(*root);
        assert(places[0] == Some(*results@[0]) && places[1] == Some(*results@[1]));
        assert forall|j: int| 0 <= j < root.children@.len() implies {
            let child = #[trigger] root.children@[j];
            &&& child.node_tx_signing_result == Some(*results@[2 + 5 * j])
            &&& child.direct_node_tx_signing_result == Some(*results@[3 + 5 * j])
            &&& child.refund_tx_signing_result == Some(*results@[4 + 5 * j])
            &&& child.direct_refund_tx_signing_result == Some(*results@[5 + 5 * j])
            &&& child.direct_from_cpfp_refund_tx_signing_result == Some(*results@[6 + 5 * j])
        } by {
            assert(places[2 + 5 * j] == Some(*results@[2 + 5 * j]));
            assert(places[3 + 5 * j] == Some(*results@[3 + 5 * j]));
            assert(places[4 + 5 * j] == Some(*results@[4 + 5 * j]));
            assert(places[5 + 5 * j] == Some(*results@[5 + 5 * j]));
            assert(places[6 + 5 * j] == Some(*results@[6 + 5 * j]));
        }
    }
    Ok(results)
}

/// A submitted split whose created leaves need their keys.
pub struct KeyBindingNeeded<'a, R> {
    /// The question to the signer.
    pub request: BindLeafSplitKeysRequest,
    pub submitted: &'a SubmittedLeafSplit,
    pub root: &'a CreationResponseNode<R>,
    pub child_node_ids: Vec<TreeNodeId>,
}

impl<'a, R> KeyBindingNeeded<'a, R> {
    /// Goes on to the signing, once the created leaves have their keys.
    pub fn keys_bound(self) -> (result: Result<SigningInputsNeeded<'a, R>, ServiceError>)
        requires
            self.child_node_ids@.len() == self.root.children@.len(),
        ensures
            match result {
                Ok(step) => {
                    &&& step.wf()
                    &&& step.submitted == self.submitted
                    &&& step.root == self.root
                    &&& step.child_node_ids == self.child_node_ids
                    &&& step.frost_jobs@.len() == 0
                },
                Err(error) => self.signing_refusal() == Some(error@),
            },
            result is Ok <==> self.signing_refusal() is None,
            result matches Err(error) ==> (error is MissingTreeSignatures <==> has_gap(
                result_slots(*self.root),
            )),
            result matches Err(error) ==> (error is MissingTreeSignatures || (
            error matches ServiceError::Generic(text) && text@ == "operator returned "@
                + decimal_digits(2 + 5 * self.root.children@.len())
                + " signing results, expected "@ + decimal_digits(
                self.submitted.plan.signing_jobs@.len(),
            ))),
            result is Ok <==> {
                &&& self.submitted.plan.signing_jobs@.len() == 2 + 5 * self.root.children@.len()
                &&& self.root.node_tx_signing_result is Some
                &&& self.root.direct_node_tx_signing_result is Some
                &&& forall|i: int|
                    0 <= i < self.root.children@.len() ==> {
                        &&& (#[trigger] self.root.children@[i]).node_tx_signing_result is Some
                        &&& self.root.children@[i].direct_node_tx_signing_result is Some
                        &&& self.root.children@[i].refund_tx_signing_result is Some
                        &&& self.root.children@[i].direct_refund_tx_signing_result is Some
                        &&& self.root.children@[i].direct_from_cpfp_refund_tx_signing_result is Some
                    }
            },
    {
        proof {
            assert(views(self.submitted.plan.signing_jobs@).len()
                == self.submitted.plan.signing_jobs@.len());
            lemma_slots_blocks(*self.root, self.root.children@.len());
        }
        let results = match response_signing_results(self.root) {
            Ok(results) => results,
            Err(error) => return Err(error),
        };
        if results.len() != self.submitted.plan.signing_jobs.len() {
            let found = decimal(results.len() as u64);
            let expected = decimal(self.submitted.plan.signing_jobs.len() as u64);
            return Err(
                ServiceError::Generic(
                    join4(
                        "operator returned ",
                        found.as_str(),
                        " signing results, expected ",
                        expected.as_str(),
                    ),
                ),
            );
        }
        Ok(
            SigningInputsNeeded {
                submitted: self.submitted,
                root: self.root,
                child_node_ids: self.child_node_ids,
                results,
                frost_jobs: Vec::new(),
                parsed: Vec::new(),
            },
        )
    }

    /// Why nothing can be signed, if nothing can.
    pub open spec fn signing_refusal(self) -> Option<ServiceErrorView> {
        let places = result_slots(*self.root);
        if has_gap(places) {
            Some(ServiceErrorView::MissingTreeSignatures)
        } else if places.len() != self.submitted@.plan.signing_jobs.len() {
            Some(
                ServiceErrorView::Generic(
                    "operator returned "@ + decimal_digits(places.len())
                        + " signing results, expected "@ + decimal_digits(
                        self.submitted@.plan.signing_jobs.len(),
                    ),
                ),
            )
        } else {
            None
        }
    }
}

/// What the signing of a job is made from: the message of `transaction` for its input at
/// `input_index`, which spends `previous_output`, and the operators' contribution.
pub struct SigningInput<'a, R> {
    pub transaction: Transaction,
    pub input_index: usize,
    pub previous_output: TxOut,
    pub result: &'a R,
}

/// The job of the signer for a planned job, its message, and the operators' contribution. The
/// verifying key is looked at first, then the contribution, then the owner.
pub open spec fn frost_job(
    plan: SplitSigningJobPlanView,
    parent_id: Seq<char>,
    child_node_ids: Seq<Seq<char>>,
    sighash: Seq<u8>,
    parsed: Result<SigningResultView, ServiceErrorView>,
) -> Result<FrostJobView, ServiceErrorView> {
    match read_verifying_key(plan.verifying_public_key) {
        Err(error) => Err(error),
        Ok(verifying_key) => match parsed {
            Err(error) => Err(error),
            Ok(contribution) => match plan.signing_derivation(parent_id, child_node_ids) {
                Err(error) => Err(error),
                Ok(derivation) => Ok(
                    FrostJobView {
                        derivation,
                        sighash,
                        verifying_key,
                        operator_commitments: contribution.signing_commitments,
                        adaptor_public_key: None,
                    },
                ),
            },
        },
    }
}

/// A submitted split some of whose jobs are ready for the signer, in order.
pub struct SigningInputsNeeded<'a, R> {
    pub submitted: &'a SubmittedLeafSplit,
    pub root: &'a CreationResponseNode<R>,
    pub child_node_ids: Vec<TreeNodeId>,
    /// What the operators contributed, as they sent it.
    pub results: Vec<&'a R>,
    pub frost_jobs: Vec<FrostJob>,
    /// What the operators contributed to the ready jobs, as it reads.
    pub parsed: Vec<SigningResult>,
}

impl<'a, R> SigningInputsNeeded<'a, R> {
    /// The planned jobs.
    pub open spec fn plans(self) -> Seq<SplitSigningJobPlanView> {
        self.submitted@.plan.signing_jobs
    }

    /// The job of the signer that the ready job at a position has to be.
    pub open spec fn ready_job(self, i: int) -> Result<FrostJobView, ServiceErrorView> {
        frost_job(
            self.plans()[i],
            self.submitted@.plan.parent_node_id,
            views(self.child_node_ids@),
            self.frost_jobs@[i]@.sighash,
            Ok(self.parsed@[i]@),
        )
    }

    /// Whether each planned job has its contribution, and each ready job is that of its plan.
    pub open spec fn wf(self) -> bool {
        &&& fills(self.results@, result_slots(*self.root))
        &&& self.results@.len() == 2 + 5 * self.root.children@.len()
        &&& self.results@.len() == self.plans().len()
        &&& self.child_node_ids@.len() == self.root.children@.len()
        &&& self.frost_jobs@.len() == self.parsed@.len()
        &&& self.frost_jobs@.len() <= self.plans().len()
        &&& forall|i: int|
            0 <= i < self.frost_jobs@.len() ==> #[trigger] self.ready_job(i) == Ok::<
                FrostJobView,
                ServiceErrorView,
            >(self.frost_jobs@[i]@)
    }

    /// The next job whose message and contribution are needed, until all jobs are ready.
    pub fn next_input(&self) -> (result: Result<Option<SigningInput<'a, R>>, ServiceError>)
        requires
            self.wf(),
        ensures
            match result {
                Ok(Some(input)) => {
                    let i = self.frost_jobs@.len() as int;
                    &&& i < self.plans().len()
                    &&& self.plans()[i].decoded_transaction() == Ok::<
                        TransactionView,
                        ServiceErrorView,
                    >(input.transaction@)
                    &&& input.input_index == 0
                    &&& input.previous_output@ == self.plans()[i].decoded_previous_output()
                    &&& input.result == self.results@[i]
                },
                Ok(None) => self.frost_jobs@.len() == self.plans().len(),
                Err(error) => {
                    &&& self.frost_jobs@.len() < self.plans().len()
                    &&& self.plans()[self.frost_jobs@.len() as int].decoded_transaction() == Err::<
                        TransactionView,
                        ServiceErrorView,
                    >(error@)
                },
            },
            ({
                let i = self.frost_jobs@.len() as int;
                let plans = self.submitted.plan.signing_jobs@;
                match result {
                    Ok(Some(input)) => {
                        &&& i < plans.len()
                        &&& consensus_decoded(plans[i].transaction@) == Ok::<
                            TransactionView,
                            Seq<char>,
                        >(input.transaction@)
                        &&& input.previous_output.value == plans[i].previous_output_value
                        &&& input.previous_output.script_pubkey@ == plans[i].previous_output_script@
                        &&& input.result == self.results@[i]
                    },
                    Ok(None) => i == plans.len(),
                    Err(error) => {
                        &&& i < plans.len()
                        &&& consensus_decoded(plans[i].transaction@) is Err
                    },
                }
            }),
    {
        let i: usize = self.frost_jobs.len();
        let jobs = &self.submitted.plan.signing_jobs;
        assert(views(jobs@).len() == jobs@.len());
        if i == jobs.len() {
            return Ok(None);
        }
        match jobs[i].transaction() {
            Ok(transaction) => Ok(
                Some(
                    SigningInput {
                        transaction,
                        input_index: 0,
                        previous_output: jobs[i].previous_output(),
                        result: self.results[i],
                    },
                ),
            ),
            Err(error) => Err(error),
        }
    }

    /// Makes the next job ready.
    pub fn input_found(
        self,
        sighash: [u8; 32],
        parsed: Result<SigningResult, ServiceError>,
    ) -> (result: Result<SigningInputsNeeded<'a, R>, ServiceError>)
        requires
            self.wf(),
            self.frost_jobs@.len() < self.plans().len(),
        ensures
            match result {
                Ok(next) => {
                    &&& next.wf()
                    &&& parsed is Ok
                    &&& frost_job(
                        self.plans()[self.frost_jobs@.len() as int],
                        self.submitted@.plan.parent_node_id,
                        views(self.child_node_ids@),
                        sighash@,
                        Ok(parsed->Ok_0@),
                    ) == Ok::<FrostJobView, ServiceErrorView>(next.frost_jobs@.last()@)
                    &&& next.frost_jobs@.drop_last() == self.frost_jobs@
                    &&& next.frost_jobs@.len() == self.frost_jobs@.len() + 1
                    &&& next.parsed@ == self.parsed@.push(parsed->Ok_0)
                    &&& next.submitted == self.submitted
                    &&& next.root == self.root
                    &&& next.child_node_ids == self.child_node_ids
                    &&& next.results == self.results
                },
                Err(error) => frost_job(
                    self.plans()[self.frost_jobs@.len() as int],
                    self.submitted@.plan.parent_node_id,
                    views(self.child_node_ids@),
                    sighash@,
                    crate::model::view_result(parsed),
                ) == Err::<FrostJobView, ServiceErrorView>(error@),
            },
            ({
                let i = self.frost_jobs@.len() as int;
                let plan = self.submitted.plan.signing_jobs@[i];
                &&& result is Ok <==> {
                    &&& parsed_public_key(plan.verifying_public_key@) is Some
                    &&& parsed is Ok
                    &&& plan.owner matches SplitJobOwner::Child(index) ==> index
                        < self.child_node_ids@.len()
                }
                &&& result matches Err(error) ==> if parsed_public_key(
                    plan.verifying_public_key@,
                ) is None {
                    error is InvalidVerifyingKey
                } else {
                    match parsed {
                        Err(refusal) => error == refusal,
                        Ok(_) => error matches ServiceError::Generic(text) && text@
                            == "missing split child node ID"@,
                    }
                }
                &&& result matches Ok(next) ==> {
                    let job = next.frost_jobs@[i];
                    &&& job.sighash == sighash
                    &&& parsed_public_key(plan.verifying_public_key@) == Some(job.verifying_key@)
                    &&& job.operator_commitments@ == parsed->Ok_0.signing_commitments@
                    &&& job.adaptor_public_key is None
                    &&& job.derivation matches FrostDerivation::SigningLeaf { leaf_id }
                    &&& leaf_id@ == match plan.owner {
                        SplitJobOwner::Parent => self.submitted.plan.parent_node_id@,
                        SplitJobOwner::Child(index) => self.child_node_ids@[index as int]@,
                    }
                }
            }),
    {
        let mut next = self;
        let i: usize = next.frost_jobs.len();
        assert(views(next.submitted.plan.signing_jobs@).len()
            == next.submitted.plan.signing_jobs@.len());
        let plan = &next.submitted.plan.signing_jobs[i];
        let verifying_key = match PublicKey::from_slice(plan.verifying_public_key.as_slice()) {
            Some(key) => key,
            None => return Err(ServiceError::InvalidVerifyingKey),
        };
        let contribution = match parsed {
            Ok(contribution) => contribution,
            Err(error) => return Err(error),
        };
        let derivation = match plan.derivation(
            &next.submitted.plan.parent_node_id,
            next.child_node_ids.as_slice(),
        ) {
            Ok(derivation) => derivation,
            Err(error) => return Err(error),
        };
        let job = FrostJob {
            derivation,
            sighash,
            verifying_key,
            operator_commitments: contribution.signing_commitments.clone(),
            adaptor_public_key: None,
        };
        next.frost_jobs.push(job);
        next.parsed.push(contribution);
        assert(next.frost_jobs@.drop_last() =~= self.frost_jobs@);
        assert forall|j: int| 0 <= j < next.frost_jobs@.len() implies #[trigger] next.ready_job(j)
            == Ok::<FrostJobView, ServiceErrorView>(next.frost_jobs@[j]@) by {
            if j < i {
                assert(next.ready_job(j) == self.ready_job(j));
            }
        }
        Ok(next)
    }

    /// The nonces of the jobs, in order: with them the ready jobs are what the signer signs, once
    /// all are.
    pub fn nonces(&self) -> (nonces: Vec<PreparedFrostNonce>)
        ensures
            views(nonces@) == self.plans().map_values(|plan: SplitSigningJobPlanView| plan.nonce),
            nonces@.len() == self.submitted.plan.signing_jobs@.len(),
            forall|i: int|
                0 <= i < nonces@.len() ==> (#[trigger] nonces@[i])@
                    == self.submitted.plan.signing_jobs@[i].nonce@,
    {
        let jobs = &self.submitted.plan.signing_jobs;
        let ghost expected = views(jobs@).map_values(|plan: SplitSigningJobPlanView| plan.nonce);
        let mut nonces: Vec<PreparedFrostNonce> = Vec::new();
        let mut i: usize = 0;
        while i < jobs.len()
            invariant
                i <= jobs@.len(),
                expected == views(jobs@).map_values(|plan: SplitSigningJobPlanView| plan.nonce),
                views(nonces@) == expected.take(i as int),
                nonces@.len() == i,
                forall|j: int| 0 <= j < i ==> (#[trigger] nonces@[j])@ == jobs@[j].nonce@,
            decreases jobs@.len() - i,
        {
            let ghost before = nonces@;
            nonces.push(jobs[i].nonce.clone());
            assert(views(nonces@) =~= views(before).push(expected[i as int]));
            assert(expected.take(i + 1) =~= expected.take(i as int).push(expected[i as int]));
            i = i + 1;
        }
        assert(expected.take(i as int) =~= expected);
        nonces
    }

    /// Takes the signer's shares, one for each job.
    pub fn shares_made(self, shares: Vec<FrostShareResult>) -> (result: Result<
        SignaturesNeeded<'a, R>,
        ServiceError,
    >)
        requires
            self.wf(),
            self.frost_jobs@.len() == self.plans().len(),
        ensures
            match result {
                Ok(step) => {
                    &&& shares@.len() == self.results@.len()
                    &&& step.wf()
                    &&& step.signing == self
                    &&& step.shares == shares
                    &&& step.signatures@.len() == 0
                },
                Err(error) => shares@.len() != self.results@.len() && error@
                    == ServiceErrorView::Generic(
                    "signer returned "@ + decimal_digits(shares@.len()) + " shares, expected "@
                        + decimal_digits(self.results@.len()),
                ),
            },
    {
        if shares.len() != self.results.len() {
            let found = decimal(shares.len() as u64);
            let expected = decimal(self.results.len() as u64);
            return Err(
                ServiceError::Generic(
                    join4(
                        "signer returned ",
                        found.as_str(),
                        " shares, expected ",
                        expected.as_str(),
                    ),
                ),
            );
        }
        Ok(SignaturesNeeded { signing: self, shares, signatures: Vec::new() })
    }
}

/// What one signature is aggregated from.
pub open spec fn aggregation(
    plan: SplitSigningJobPlanView,
    job: FrostJobView,
    contribution: SigningResultView,
    share: FrostShareResultView,
) -> Result<AggregateFrostRequestView, ServiceErrorView> {
    match read_public_key(plan.signing_public_key) {
        Err(error) => Err(error),
        Ok(public_key) => Ok(
            AggregateFrostRequestView {
                message: job.sighash,
                statechain_signatures: contribution.signature_shares,
                statechain_public_keys: contribution.public_keys,
                verifying_key: job.verifying_key,
                statechain_commitments: contribution.signing_commitments,
                self_commitment: share.commitment.commitments,
                public_key,
                self_signature: share.signature_share,
                adaptor_public_key: None,
            },
        ),
    }
}

/// A signature is made for the job that the signer signed: the request to aggregate it has the
/// message and the verifying key of that job, and the verifying key is the one that the plan keeps
/// as such. The wallet's own key is the one that the plan keeps for signing. What each side
/// contributes is handed on as it came.
pub proof fn signatures_verify_under_planned_keys(
    plan: SplitSigningJobPlanView,
    parent_id: Seq<char>,
    child_node_ids: Seq<Seq<char>>,
    job: FrostJobView,
    contribution: SigningResultView,
    share: FrostShareResultView,
)
    requires
        frost_job(plan, parent_id, child_node_ids, job.sighash, Ok(contribution)) == Ok::<
            FrostJobView,
            ServiceErrorView,
        >(job),
    ensures
        aggregation(plan, job, contribution, share) is Ok <==> parsed_public_key(
            plan.signing_public_key,
        ) is Some,
        aggregation(plan, job, contribution, share) matches Ok(request) ==> {
            &&& request.verifying_key == job.verifying_key
            &&& parsed_public_key(plan.verifying_public_key) == Some(request.verifying_key)
            &&& parsed_public_key(plan.signing_public_key) == Some(request.public_key)
            &&& request.message == job.sighash
            &&& request.statechain_commitments == job.operator_commitments
            &&& request.statechain_commitments == contribution.signing_commitments
            &&& request.statechain_signatures == contribution.signature_shares
            &&& request.statechain_public_keys == contribution.public_keys
            &&& request.self_commitment == share.commitment.commitments
            &&& request.self_signature == share.signature_share
            &&& request.adaptor_public_key is None
            &&& job.adaptor_public_key is None
        },
{
}

/// A submitted split some of whose signatures are there, in order.
pub struct SignaturesNeeded<'a, R> {
    pub signing: SigningInputsNeeded<'a, R>,
    pub shares: Vec<FrostShareResult>,
    pub signatures: Vec<Vec<u8>>,
}

impl<'a, R> SignaturesNeeded<'a, R> {
    /// Whether every job is ready and has its share.
    pub open spec fn wf(self) -> bool {
        &&& self.signing.wf()
        &&& self.signing.frost_jobs@.len() == self.signing.plans().len()
        &&& self.shares@.len() == self.signing.plans().len()
        &&& self.signatures@.len() <= self.signing.plans().len()
    }

    /// What the signature at a position is aggregated from.
    pub open spec fn aggregation_at(self, i: int) -> Result<
        AggregateFrostRequestView,
        ServiceErrorView,
    > {
        aggregation(
            self.signing.plans()[i],
            self.signing.frost_jobs@[i]@,
            self.signing.parsed@[i]@,
            self.shares@[i]@,
        )
    }

    /// The next signature that is needed, until all are there.
    pub fn next_signature(&self) -> (result: Result<Option<AggregateFrostRequest>, ServiceError>)
        requires
            self.wf(),
        ensures
            match result {
                Ok(Some(request)) => {
                    &&& self.signatures@.len() < self.signing.plans().len()
                    &&& self.aggregation_at(self.signatures@.len() as int) == Ok::<
                        AggregateFrostRequestView,
                        ServiceErrorView,
                    >(request@)
                },
                Ok(None) => self.signatures@.len() == self.signing.plans().len(),
                Err(error) => {
                    &&& self.signatures@.len() < self.signing.plans().len()
                    &&& self.aggregation_at(self.signatures@.len() as int) == Err::<
                        AggregateFrostRequestView,
                        ServiceErrorView,
                    >(error@)
                },
            },
            ({
                let i = self.signatures@.len() as int;
                let plans = self.signing.submitted.plan.signing_jobs@;
                match result {
                    Ok(Some(request)) => {
                        let job = self.signing.frost_jobs@[i];
                        let contribution = self.signing.parsed@[i];
                        &&& i < plans.len()
                        &&& request.verifying_key@ == job.verifying_key@
                        &&& parsed_public_key(plans[i].verifying_public_key@) == Some(
                            request.verifying_key@,
                        )
                        &&& parsed_public_key(plans[i].signing_public_key@) == Some(
                            request.public_key@,
                        )
                        &&& request.message == job.sighash
                        &&& request.statechain_signatures@ == contribution.signature_shares@
                        &&& request.statechain_public_keys@ == contribution.public_keys@
                        &&& request.statechain_commitments@ == contribution.signing_commitments@
                        &&& request.self_commitment@ == self.shares@[i].commitment.commitments@
                        &&& request.self_signature@ == self.shares@[i].signature_share@
                        &&& request.adaptor_public_key is None
                    },
                    Ok(None) => i == plans.len(),
                    Err(error) => {
                        &&& i < plans.len()
                        &&& parsed_public_key(plans[i].signing_public_key@) is None
                        &&& error@ == ServiceErrorView::InvalidPublicKey
                    },
                }
            }),
    {
        let i: usize = self.signatures.len();
        let plans = &self.signing.submitted.plan.signing_jobs;
        assert(views(plans@).len() == plans@.len());
        if i == plans.len() {
            return Ok(None);
        }
        let public_key = match PublicKey::from_slice(plans[i].signing_public_key.as_slice()) {
            Some(key) => key,
            None => return Err(ServiceError::InvalidPublicKey),
        };
        let job = &self.signing.frost_jobs[i];
        assert(self.signing.ready_job(i as int) is Ok);
        let contribution = self.signing.parsed[i].clone();
        let share = &self.shares[i];
        Ok(
            Some(
                AggregateFrostRequest {
                    message: job.sighash,
                    statechain_signatures: contribution.signature_shares,
                    statechain_public_keys: contribution.public_keys,
                    verifying_key: job.verifying_key,
                    statechain_commitments: contribution.signing_commitments,
                    self_commitment: share.commitment.commitments.clone(),
                    public_key,
                    self_signature: copy_bytes(&share.signature_share),
                    adaptor_public_key: None,
                },
            ),
        )
    }

    /// Takes the next signature, unless it has no encoding.
    pub fn signature_made(self, signature: Option<Vec<u8>>) -> (result: Result<
        SignaturesNeeded<'a, R>,
        ServiceError,
    >)
        requires
            self.wf(),
            self.signatures@.len() < self.signing.plans().len(),
        ensures
            match result {
                Ok(next) => {
                    &&& signature is Some
                    &&& next.wf()
                    &&& next.signing == self.signing
                    &&& next.shares == self.shares
                    &&& next.signatures@ == self.signatures@.push(signature->Some_0)
                },
                Err(error) => signature is None && error@
                    == ServiceErrorView::InvalidSignatureShare,
            },
    {
        let mut next = self;
        match signature {
            Some(bytes) => {
                next.signatures.push(bytes);
                Ok(next)
            },
            None => Err(ServiceError::InvalidSignatureShare),
        }
    }

    /// The signatures of all nodes, once all are there, for the ordinary operators.
    pub fn finish(self) -> (step: FinalizationNeeded)
        requires
            self.wf(),
            self.signatures@.len() == self.signing.plans().len(),
        ensures
            step.pool == OperatorPool::Ordinary,
            step.request@ == (FinalizeNodeSignaturesRequestView {
                intent: SignatureIntent::Creation,
                node_signatures: tree_signatures(*self.signing.root, views(self.signatures@)),
            }),
            step.child_node_ids == self.signing.child_node_ids,
            step.request.intent == SignatureIntent::Creation,
            step.request.node_signatures@.len() == 1 + self.signing.root.children@.len(),
            ({
                let signed = step.request.node_signatures@[0];
                &&& signed.node_id@ == self.signing.root.node_id@
                &&& signed.node_tx_signature@ == self.signatures@[0]@
                &&& signed.direct_node_tx_signature@ == self.signatures@[1]@
                &&& signed.refund_tx_signature@.len() == 0
                &&& signed.direct_refund_tx_signature@.len() == 0
                &&& signed.direct_from_cpfp_refund_tx_signature@.len() == 0
            }),
            forall|i: int|
                0 <= i < self.signing.root.children@.len() ==> {
                    let signed = step.request.node_signatures@[1 + i];
                    &&& signed.node_id@ == (#[trigger] self.signing.root.children@[i]).node_id@
                    &&& signed.node_tx_signature@ == self.signatures@[2 + 5 * i]@
                    &&& signed.direct_node_tx_signature@ == self.signatures@[3 + 5 * i]@
                    &&& signed.refund_tx_signature@ == self.signatures@[4 + 5 * i]@
                    &&& signed.direct_refund_tx_signature@ == self.signatures@[5 + 5 * i]@
                    &&& signed.direct_from_cpfp_refund_tx_signature@ == self.signatures@[6 + 5 * i]@
                },
    {
        let root = self.signing.root;
        let signatures = &self.signatures;
        let ghost expected = tree_signatures(*root, views(signatures@));
        let mut node_signatures: Vec<NodeSignatures> = Vec::new();
        node_signatures.push(
            NodeSignatures {
                node_id: root.node_id.clone(),
                node_tx_signature: copy_bytes(&signatures[0]),
                refund_tx_signature: Vec::new(),
                direct_node_tx_signature: copy_bytes(&signatures[1]),
                direct_refund_tx_signature: Vec::new(),
                direct_from_cpfp_refund_tx_signature: Vec::new(),
            },
        );
        let ghost first = node_signatures@[0];
        assert(views(node_signatures@) =~= expected.take(1));
        let mut index: usize = 0;
        while index < root.children.len()
            invariant
                index <= root.children@.len(),
                signatures@.len() == 2 + 5 * root.children@.len(),
                expected == tree_signatures(*root, views(signatures@)),
                views(node_signatures@) == expected.take(1 + index),
                node_signatures@.len() == 1 + index,
                node_signatures@[0] == first,
                forall|i: int|
                    0 <= i < index ==> {
                        let signed = node_signatures@[1 + i];
                        &&& signed.node_id@ == (#[trigger] root.children@[i]).node_id@
                        &&& signed.node_tx_signature@ == signatures@[2 + 5 * i]@
                        &&& signed.direct_node_tx_signature@ == signatures@[3 + 5 * i]@
                        &&& signed.refund_tx_signature@ == signatures@[4 + 5 * i]@
                        &&& signed.direct_refund_tx_signature@ == signatures@[5 + 5 * i]@
                        &&& signed.direct_from_cpfp_refund_tx_signature@ == signatures@[6 + 5 * i]@
                    },
            decreases root.children@.len() - index,
        {
            assert(signatures.len() == signatures@.len());
            let base: usize = 2 + index * 5;
            let child = &root.children[index];
            let ghost before = node_signatures@;
            let signed = NodeSignatures {
                node_id: child.node_id.clone(),
                node_tx_signature: copy_bytes(&signatures[base]),
                refund_tx_signature: copy_bytes(&signatures[base + 2]),
                direct_node_tx_signature: copy_bytes(&signatures[base + 1]),
                direct_refund_tx_signature: copy_bytes(&signatures[base + 3]),
                direct_from_cpfp_refund_tx_signature: copy_bytes(&signatures[base + 4]),
            };
            assert(signed@ == expected[1 + index]);
            node_signatures.push(signed);
            assert(views(node_signatures@) =~= views(before).push(signed@));
            assert(expected.take(2 + index) =~= expected.take(1 + index).push(signed@));
            index = index + 1;
        }
        assert(expected.take(1 + index) =~= expected);
        FinalizationNeeded {
            pool: OperatorPool::Ordinary,
            request: FinalizeNodeSignaturesRequest {
                intent: SignatureIntent::Creation,
                node_signatures,
            },
            child_node_ids: self.signing.child_node_ids,
        }
    }
}

/// The signatures of the root, which are the first two.
pub open spec fn root_signatures(
    node_id: Seq<char>,
    signatures: Seq<Seq<u8>>,
) -> NodeSignaturesView {
    NodeSignaturesView {
        node_id,
        node_tx_signature: signatures[0],
        refund_tx_signature: Seq::empty(),
        direct_node_tx_signature: signatures[1],
        direct_refund_tx_signature: Seq::empty(),
        direct_from_cpfp_refund_tx_signature: Seq::empty(),
    }
}

/// The signatures of the child at a position, which are the five of its block.
pub open spec fn child_signatures(
    node_id: Seq<char>,
    index: int,
    signatures: Seq<Seq<u8>>,
) -> NodeSignaturesView {
    let base = 2 + 5 * index;
    NodeSignaturesView {
        node_id,
        node_tx_signature: signatures[base],
        refund_tx_signature: signatures[base + 2],
        direct_node_tx_signature: signatures[base + 1],
        direct_refund_tx_signature: signatures[base + 3],
        direct_from_cpfp_refund_tx_signature: signatures[base + 4],
    }
}

/// The signatures of all nodes, the root's first.
pub open spec fn tree_signatures<R>(
    root: CreationResponseNode<R>,
    signatures: Seq<Seq<u8>>,
) -> Seq<NodeSignaturesView> {
    Seq::new(
        1 + root.children@.len(),
        |k: int|
            if k == 0 {
                root_signatures(root.node_id@, signatures)
            } else {
                child_signatures(root.children@[k - 1].node_id@, k - 1, signatures)
            },
    )
}

/// A split whose signatures have to be handed to the operators.
pub struct FinalizationNeeded {
    /// The operators that are asked.
    pub pool: OperatorPool,
    /// The question to them.
    pub request: FinalizeNodeSignaturesRequest,
    pub child_node_ids: Vec<TreeNodeId>,
}

/// A node whose signatures the operators finalized: its id, and the node as they describe it
/// (`N`).
#[derive(Debug, PartialEq, Eq)]
pub struct FinalizedNode<N> {
    pub id: TreeNodeId,
    pub node: N,
}

/// The nodes that are created leaves, in order.
pub open spec fn created_leaves<N>(
    nodes: Seq<FinalizedNode<N>>,
    child_node_ids: Seq<Seq<char>>,
) -> Seq<N>
    decreases nodes.len(),
{
    if nodes.len() == 0 {
        Seq::empty()
    } else {
        let rest = created_leaves(nodes.drop_first(), child_node_ids);
        if child_node_ids.contains(nodes.first().id@) {
            seq![nodes.first().node] + rest
        } else {
            rest
        }
    }
}

/// The leaves of a split are those of the finalized nodes whose ids are among the created ones:
/// each of them, in the order in which they came, and no other.
pub proof fn leaves_are_the_nodes_with_their_ids<N>(
    nodes: Seq<FinalizedNode<N>>,
    child_node_ids: Seq<Seq<char>>,
)
    ensures
        created_leaves(nodes, child_node_ids) == nodes.filter(
            |node: FinalizedNode<N>| child_node_ids.contains(node.id@),
        ).map_values(|node: FinalizedNode<N>| node.node),
    decreases nodes.len(),
{
    let listed = |node: FinalizedNode<N>| child_node_ids.contains(node.id@);
    let inner = |node: FinalizedNode<N>| node.node;
    reveal(Seq::filter);
    if nodes.len() == 0 {
        assert(nodes.filter(listed).map_values(inner) =~= Seq::empty());
    } else {
        let rest = nodes.drop_first();
        leaves_are_the_nodes_with_their_ids(rest, child_node_ids);
        let head = seq![nodes.first()];
        assert(nodes =~= head + rest);
        Seq::filter_distributes_over_add(head, rest, listed);
        assert(head.drop_last() =~= Seq::empty());
        assert(head.drop_last().filter(listed) =~= Seq::empty());
        assert(head.filter(listed) =~= if listed(nodes.first()) {
            head
        } else {
            Seq::empty()
        });
        assert(nodes.filter(listed).map_values(inner) =~= head.filter(listed).map_values(inner)
            + rest.filter(listed).map_values(inner));
        assert(head.map_values(inner) =~= seq![nodes.first().node]);
        assert(created_leaves(nodes, child_node_ids) =~= nodes.filter(listed).map_values(inner));
    }
}

impl FinalizationNeeded {
    /// The leaves of the split: of the nodes that the operators finalized, the created children,
    /// whole and in order.
    pub fn finalized<N>(self, nodes: Vec<FinalizedNode<N>>) -> (result: SplitLeafResult<N>)
        ensures
            result.children@ == created_leaves(nodes@, views(self.child_node_ids@)),
            result.children@ == nodes@.filter(
                |node: FinalizedNode<N>| views(self.child_node_ids@).contains(node.id@),
            ).map_values(|node: FinalizedNode<N>| node.node),
    {
        proof {
            leaves_are_the_nodes_with_their_ids(nodes@, views(self.child_node_ids@));
        }
        let ghost ids = views(self.child_node_ids@);
        let ghost all = nodes@;
        let mut left = nodes;
        let mut last_first: Vec<N> = Vec::new();
        assert(all.skip(all.len() as int) =~= Seq::empty());
        assert(last_first@.reverse() =~= created_leaves(all.skip(all.len() as int), ids));
        while left.len() > 0
            invariant
                ids == views(self.child_node_ids@),
                left@.len() <= all.len(),
                left@ == all.take(left@.len() as int),
                last_first@.reverse() == created_leaves(all.skip(left@.len() as int), ids),
            decreases left@.len(),
        {
            let ghost n = left@.len() - 1;
            let ghost found = last_first@;
            assert(all.skip(n).drop_first() =~= all.skip(n + 1));
            match left.pop() {
                Some(node) => {
                    assert(node == all[n] && all.skip(n).first() == node);
                    if contains_id(&self.child_node_ids, &node.id) {
                        last_first.push(node.node);
                        assert(last_first@.reverse() =~= seq![node.node] + found.reverse());
                    }
                },
                None => {},
            }
            assert(left@ =~= all.take(n));
        }
        assert(all.skip(0) =~= all);
        let ghost backwards = last_first@;
        let mut children: Vec<N> = Vec::new();
        while last_first.len() > 0
            invariant
                last_first@.len() <= backwards.len(),
                last_first@ == backwards.take(last_first@.len() as int),
                children@ == backwards.skip(last_first@.len() as int).reverse(),
            decreases last_first@.len(),
        {
            let ghost n = last_first@.len() - 1;
            match last_first.pop() {
                Some(node) => {
                    assert(node == backwards[n]);
                    children.push(node);
                },
                None => {},
            }
            assert(last_first@ =~= backwards.take(n));
            assert(children@ =~= backwards.skip(n).reverse());
        }
        assert(backwards.skip(0) =~= backwards);
        SplitLeafResult { children }
    }
}

/// Planned jobs, the operators' contributions and the signatures of the nodes keep the same
/// places: the signature that a created leaf gets for each of its five transactions is the one
/// made for the job of that transaction, with the contribution to that transaction.
pub proof fn signatures_reach_their_transactions<R>(
    material: SplitMaterial,
    children: Seq<ChildTransactionsView>,
    root: CreationResponseNode<R>,
    signatures: Seq<Seq<u8>>,
    i: int,
)
    requires
        root.children@.len() == children.len(),
        signatures.len() == 2 + 5 * children.len(),
        0 <= i < children.len(),
    ensures
        split_jobs(material, children).len() == signatures.len(),
        result_slots(root).len() == signatures.len(),
        ({
            let jobs = split_jobs(material, children);
            let places = result_slots(root);
            let child = root.children@[i];
            let signed = tree_signatures(root, signatures)[1 + i];
            let base = 2 + 5 * i;
            &&& signed.node_id == child.node_id@
            &&& jobs[base].transaction == consensus_bytes(children[i].node_tx)
            &&& places[base] == child.node_tx_signing_result
            &&& signed.node_tx_signature == signatures[base]
            &&& jobs[base + 1].transaction == consensus_bytes(children[i].direct_node_tx)
            &&& places[base + 1] == child.direct_node_tx_signing_result
            &&& signed.direct_node_tx_signature == signatures[base + 1]
            &&& jobs[base + 2].transaction == consensus_bytes(children[i].refund_tx)
            &&& places[base + 2] == child.refund_tx_signing_result
            &&& signed.refund_tx_signature == signatures[base + 2]
            &&& jobs[base + 3].transaction == consensus_bytes(children[i].direct_refund_tx)
            &&& places[base + 3] == child.direct_refund_tx_signing_result
            &&& signed.direct_refund_tx_signature == signatures[base + 3]
            &&& jobs[base + 4].transaction == consensus_bytes(
                children[i].direct_from_cpfp_refund_tx,
            )
            &&& places[base + 4] == child.direct_from_cpfp_refund_tx_signing_result
            &&& signed.direct_from_cpfp_refund_tx_signature == signatures[base + 4]
        }),
{
    jobs_lie_in_blocks(material, children);
    lemma_slots_blocks(root, root.children@.len());
    let jobs = split_jobs(material, children);
    let block = child_jobs(material, i, children[i]);
    let places = result_slots(root);
    let child_places = child_slots(root.children@[i]);
    assert(jobs[2 + 5 * i + 0] == block[0] && places[2 + 5 * i + 0] == child_places[0]);
    assert(jobs[2 + 5 * i + 1] == block[1] && places[2 + 5 * i + 1] == child_places[1]);
    assert(jobs[2 + 5 * i + 2] == block[2] && places[2 + 5 * i + 2] == child_places[2]);
    assert(jobs[2 + 5 * i + 3] == block[3] && places[2 + 5 * i + 3] == child_places[3]);
    assert(jobs[2 + 5 * i + 4] == block[4] && places[2 + 5 * i + 4] == child_places[4]);
}

/// The signatures that the root gets are those made for the two split transactions.
pub proof fn root_signatures_reach_split_transactions<R>(
    material: SplitMaterial,
    children: Seq<ChildTransactionsView>,
    root: CreationResponseNode<R>,
    signatures: Seq<Seq<u8>>,
)
    requires
        root.children@.len() == children.len(),
        signatures.len() == 2 + 5 * children.len(),
    ensures
        split_jobs(material, children)[0].transaction == consensus_bytes(material.split_tx),
        result_slots(root)[0] == root.node_tx_signing_result,
        tree_signatures(root, signatures)[0].node_tx_signature == signatures[0],
        split_jobs(material, children)[1].transaction == consensus_bytes(material.direct_split_tx),
        result_slots(root)[1] == root.direct_node_tx_signing_result,
        tree_signatures(root, signatures)[0].direct_node_tx_signature == signatures[1],
        tree_signatures(root, signatures)[0].node_id == root.node_id@,
{
    jobs_lie_in_blocks(material, children);
    lemma_slots_blocks(root, root.children@.len());
    let jobs = split_jobs(material, children);
    let places = result_slots(root);
    assert(jobs[0] == jobs.take(2)[0] && jobs[1] == jobs.take(2)[1]);
    assert(places[0] == places.take(2)[0] && places[1] == places.take(2)[1]);
}

} // verus!

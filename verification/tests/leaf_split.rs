use spark_wallet::by_operator::ByOperator;
use spark_wallet::error::ServiceError;
use spark_wallet::frost::{
    FrostDerivation, FrostShareResult, FrostSigningCommitmentsWithNonces, OperatorCommitments,
    OperatorKey, OperatorShare, PreparedFrostNonce, SigningCommitments, SigningResult,
};
use spark_wallet::keys::{Identifier, PublicKey};
use spark_wallet::leaf_split::finalize::{response_signing_results, FinalizedNode};
use spark_wallet::leaf_split::messages::{
    AddressNode, ChildAddressNode, CreationResponseNode, OperatorPool, PreparedAddress,
    SignatureIntent,
};
use spark_wallet::leaf_split::plan::{
    job_plan, next_nonce, proto_job, validate_split, LeafSplitDraft, LeafSplitPlan, SplitJobOwner,
    SplitSigningJobPlan, SubmittedLeafSplit,
};
use spark_wallet::leaf_split::prepare::{ChildTransactions, LeafSplitService, SplitAssembly};
use spark_wallet::signer::requests::PreparedLeafSplitKeys;
use spark_wallet::transaction::{Network, Transaction, TxIn, TxOut, Witness};
use spark_wallet::tree::{TreeNode, TreeNodeId, TreeNodeStatus};

fn key(secret: u8) -> PublicKey {
    PublicKey::from_secret(&[secret; 32]).unwrap()
}

fn id(text: &str) -> TreeNodeId {
    TreeNodeId { id: text.to_string() }
}

fn transaction(marker: u32, values: &[u64]) -> Transaction {
    Transaction {
        version: 3,
        lock_time: 0,
        inputs: vec![TxIn {
            txid: [0; 32],
            vout: u32::MAX,
            script_sig: Vec::new(),
            sequence: marker,
            witness: Witness::empty(),
        }],
        outputs: values.iter().map(|value| TxOut { value: *value, script_pubkey: vec![0x51] }).collect(),
    }
}

fn nonce(n: u8) -> PreparedFrostNonce {
    PreparedFrostNonce {
        hiding_commitment: vec![n; 33],
        binding_commitment: vec![n + 1; 33],
        nonces_ciphertext: vec![n + 2; 64],
    }
}

fn leaf() -> TreeNode {
    TreeNode {
        id: id("parent"),
        value: 1_000,
        status: TreeNodeStatus::Available,
        verifying_public_key: key(9),
        node_tx: transaction(1, &[1_000]),
    }
}

fn service() -> LeafSplitService {
    LeafSplitService::new(Network::Regtest, key(5))
}

fn draft() -> LeafSplitDraft {
    let step = service().draft_split("operation".to_string(), &leaf(), vec![400, 600]).unwrap();
    assert_eq!(step.request.operation_id, "operation");
    assert_eq!(step.request.parent_leaf_id, id("parent"));
    assert_eq!(step.request.child_count, 2);
    step.keys_prepared(PreparedLeafSplitKeys { child_public_keys: vec![key(11), key(12)] })
}

// Two addresses whose witness program is the hash of the curve generator's public key.
const REGTEST_ADDRESS: &str = "bcrt1qw508d6qejxtdg4y5r3zarvary0c5xw7kygt080";
const MAINNET_ADDRESS: &str = "bc1qw508d6qejxtdg4y5r3zarvary0c5xw7kv8f3t4";

fn address(text: &str, verifying: u8) -> PreparedAddress {
    PreparedAddress { address: text.to_string(), verifying_key: key(verifying).serialize() }
}

fn address_root() -> AddressNode {
    AddressNode {
        address: Some(address(REGTEST_ADDRESS, 9)),
        children: vec![
            ChildAddressNode { address: Some(address(REGTEST_ADDRESS, 21)) },
            ChildAddressNode { address: Some(address(REGTEST_ADDRESS, 22)) },
        ],
    }
}

fn child_transactions(index: u32) -> ChildTransactions {
    ChildTransactions {
        node_tx: transaction(10 * index + 10, &[390]),
        direct_node_tx: transaction(10 * index + 11, &[380]),
        refund_tx: transaction(10 * index + 12, &[370]),
        direct_refund_tx: Some(transaction(10 * index + 13, &[360])),
        direct_from_cpfp_refund_tx: Some(transaction(10 * index + 14, &[350])),
    }
}

fn assembly<'a>(draft: &'a LeafSplitDraft, parent: &'a TreeNode) -> SplitAssembly<'a> {
    let step = service().prepare_split(draft, parent).unwrap();
    assert_eq!(step.leaf_id(), &id("parent"));
    let step = step.parent_key_found(key(3));
    assert_eq!(step.pool, OperatorPool::Private);
    assert_eq!(step.request.source.node_id, "parent");
    assert_eq!(step.request.source.vout, 0);
    assert_eq!(step.request.user_public_key, key(3).serialize());
    assert_eq!(step.request.child_user_public_keys, vec![key(11).serialize(), key(12).serialize()]);
    assert_eq!(step.request.user_identity_public_key, key(5).serialize());
    let step = step.addresses_prepared(Some(address_root())).unwrap();
    assert_eq!(step.vout, 0);
    assert_eq!(step.node_tx(), &parent.node_tx);
    let values: Vec<u64> = step.child_outputs.iter().map(|output| output.value).collect();
    assert_eq!(values, vec![400, 600]);
    // OP_0 and the 20 bytes of the key hash that the address holds.
    assert_eq!(
        hex::encode(&step.child_outputs[0].script_pubkey),
        "0014751e76e8199196d454941c45d1b3a323f1433bd6"
    );
    let step = step.transactions_created(transaction(2, &[400, 600]), transaction(3, &[395, 595]));
    assert_eq!(step.count, 12);
    step.nonces_prepared((0..12).map(nonce).collect()).unwrap()
}

fn plan() -> LeafSplitPlan {
    let draft = draft();
    let parent = leaf();
    let mut run = assembly(&draft, &parent);
    let mut index = 0;
    while let Some(question) = run.next_child() {
        assert_eq!(question.split_tx, &transaction(2, &[400, 600]));
        assert_eq!(question.vout, index);
        assert_eq!(question.network, Network::Regtest);
        assert_eq!(question.signing_public_key, key(11 + index as u8));
        run = run.child_created(child_transactions(index)).unwrap();
        index += 1;
    }
    assert_eq!(index, 2);
    let step = run.finish();
    assert_eq!(step.request.source.node_id, "parent");
    assert_eq!(step.request.children.len(), 2);
    assert_eq!(
        step.request.children[1].refund_tx_signing_job,
        proto_job(&transaction(22, &[370]), key(12), &nonce(9))
    );
    step.request_encoded(vec![4, 5])
}

#[test]
fn signing_job_request_contains_complete_persisted_material() {
    let key = bitcoin::secp256k1::SecretKey::from_slice(&[7; 32])
        .unwrap()
        .public_key(&bitcoin::secp256k1::Secp256k1::new());
    let public_key = PublicKey::from_slice(&key.serialize()).unwrap();
    let bitcoin_tx = bitcoin::Transaction {
        version: bitcoin::transaction::Version::non_standard(3),
        lock_time: bitcoin::absolute::LockTime::ZERO,
        input: vec![bitcoin::TxIn {
            previous_output: bitcoin::OutPoint::null(),
            sequence: bitcoin::Sequence::ZERO,
            ..Default::default()
        }],
        output: vec![bitcoin::TxOut {
            value: bitcoin::Amount::from_sat(1_000),
            script_pubkey: bitcoin::ScriptBuf::new(),
        }],
    };
    let tx = Transaction {
        version: 3,
        lock_time: 0,
        inputs: vec![TxIn {
            txid: [0; 32],
            vout: u32::MAX,
            script_sig: Vec::new(),
            sequence: 0,
            witness: Witness::empty(),
        }],
        outputs: vec![TxOut { value: 1_000, script_pubkey: Vec::new() }],
    };
    let nonce = PreparedFrostNonce {
        hiding_commitment: vec![1; 33],
        binding_commitment: vec![2; 33],
        nonces_ciphertext: vec![3; 64],
    };

    let request = proto_job(&tx, public_key, &nonce);
    assert_eq!(request.raw_tx, bitcoin::consensus::serialize(&bitcoin_tx));
    assert_eq!(request.signing_public_key, key.serialize());
    let commitment = request.signing_nonce_commitment.unwrap();
    assert_eq!(commitment.hiding, nonce.hiding_commitment);
    assert_eq!(commitment.binding, nonce.binding_commitment);

    let plan = LeafSplitPlan {
        operation_id: "operation".to_string(),
        parent_node_id: id("parent"),
        child_values: vec![400, 600],
        create_tree_request: vec![4, 5],
        signing_jobs: vec![job_plan(
            SplitJobOwner::Parent,
            &tx,
            &tx.outputs[0],
            public_key,
            public_key,
            nonce,
        )],
    };
    let encoded = serde_json::to_vec(&plan_to_json(&plan)).unwrap();
    assert_eq!(plan_from_json(&serde_json::from_slice(&encoded).unwrap()), plan);
}

fn bytes_to_json(bytes: &[u8]) -> serde_json::Value {
    serde_json::Value::from(bytes.to_vec())
}

fn bytes_from_json(value: &serde_json::Value) -> Vec<u8> {
    value.as_array().unwrap().iter().map(|byte| byte.as_u64().unwrap() as u8).collect()
}

fn object(members: Vec<(&str, serde_json::Value)>) -> serde_json::Value {
    let mut map = serde_json::Map::new();
    for (name, value) in members {
        map.insert(name.to_string(), value);
    }
    serde_json::Value::Object(map)
}

fn plan_to_json(plan: &LeafSplitPlan) -> serde_json::Value {
    let jobs: Vec<serde_json::Value> = plan
        .signing_jobs
        .iter()
        .map(|job| {
            let owner = match job.owner {
                SplitJobOwner::Parent => serde_json::Value::from("Parent"),
                SplitJobOwner::Child(index) => object(vec![("Child", serde_json::Value::from(index))]),
            };
            object(vec![
                ("owner", owner),
                ("transaction", bytes_to_json(&job.transaction)),
                ("previous_output_value", serde_json::Value::from(job.previous_output_value)),
                ("previous_output_script", bytes_to_json(&job.previous_output_script)),
                ("signing_public_key", bytes_to_json(&job.signing_public_key)),
                ("verifying_public_key", bytes_to_json(&job.verifying_public_key)),
                ("hiding_commitment", bytes_to_json(&job.nonce.hiding_commitment)),
                ("binding_commitment", bytes_to_json(&job.nonce.binding_commitment)),
                ("nonces_ciphertext", bytes_to_json(&job.nonce.nonces_ciphertext)),
            ])
        })
        .collect();
    object(vec![
        ("operation_id", serde_json::Value::from(plan.operation_id.clone())),
        ("parent_node_id", serde_json::Value::from(plan.parent_node_id.id.clone())),
        ("child_values", serde_json::Value::from(plan.child_values.clone())),
        ("create_tree_request", bytes_to_json(&plan.create_tree_request)),
        ("signing_jobs", serde_json::Value::from(jobs)),
    ])
}

fn plan_from_json(value: &serde_json::Value) -> LeafSplitPlan {
    let jobs = value["signing_jobs"]
        .as_array()
        .unwrap()
        .iter()
        .map(|job| SplitSigningJobPlan {
            owner: if job["owner"] == "Parent" {
                SplitJobOwner::Parent
            } else {
                SplitJobOwner::Child(job["owner"]["Child"].as_u64().unwrap() as usize)
            },
            transaction: bytes_from_json(&job["transaction"]),
            previous_output_value: job["previous_output_value"].as_u64().unwrap(),
            previous_output_script: bytes_from_json(&job["previous_output_script"]),
            signing_public_key: bytes_from_json(&job["signing_public_key"]),
            verifying_public_key: bytes_from_json(&job["verifying_public_key"]),
            nonce: PreparedFrostNonce {
                hiding_commitment: bytes_from_json(&job["hiding_commitment"]),
                binding_commitment: bytes_from_json(&job["binding_commitment"]),
                nonces_ciphertext: bytes_from_json(&job["nonces_ciphertext"]),
            },
        })
        .collect();
    LeafSplitPlan {
        operation_id: value["operation_id"].as_str().unwrap().to_string(),
        parent_node_id: id(value["parent_node_id"].as_str().unwrap()),
        child_values: value["child_values"]
            .as_array()
            .unwrap()
            .iter()
            .map(|child| child.as_u64().unwrap())
            .collect(),
        create_tree_request: bytes_from_json(&value["create_tree_request"]),
        signing_jobs: jobs,
    }
}

#[test]
fn a_plan_with_child_jobs_survives_being_stored() {
    let plan = plan();
    let encoded = serde_json::to_vec(&plan_to_json(&plan)).unwrap();
    assert_eq!(plan_from_json(&serde_json::from_slice(&encoded).unwrap()), plan);
}

#[test]
fn a_job_with_a_witness_is_read_back() {
    let mut tx = transaction(7, &[5, 6]);
    tx.inputs[0].witness = Witness::new(vec![vec![1; 64], Vec::new(), vec![2; 300]]).unwrap();
    let job = job_plan(SplitJobOwner::Child(1), &tx, &tx.outputs[1], key(1), key(2), nonce(1));
    assert_eq!(job.transaction(), Ok(tx));
    assert_eq!(job.previous_output().value, 6);
}

#[test]
fn a_job_with_a_large_witness_is_read_back() {
    let read_back = |elements: Vec<Vec<u8>>| {
        let mut tx = transaction(7, &[5]);
        tx.inputs[0].witness = Witness::new(elements).unwrap();
        let job = job_plan(SplitJobOwner::Parent, &tx, &tx.outputs[0], key(1), key(2), nonce(1));
        match job.transaction() {
            Ok(read) => {
                assert_eq!(read, tx);
                true
            }
            Err(error) => {
                assert_eq!(error, ServiceError::InvalidTransaction);
                false
            }
        }
    };
    // Lengths of one, three and five bytes before the elements.
    assert!(read_back(vec![vec![1; 249]; 16_000]));
    assert!(!read_back(vec![vec![1; 250]; 16_000]));
    assert!(read_back(vec![vec![1; 997]; 4_000]));
    assert!(!read_back(vec![vec![1; 998]; 4_000]));
    assert!(read_back(vec![vec![1; 3_999_995]]));
    assert!(!read_back(vec![vec![1; 3_999_996]]));
}

#[test]
fn copies_are_equal() {
    let submitted = submitted();
    assert_eq!(submitted.clone(), submitted);
    assert_eq!(draft().clone(), draft());
}

fn refusal(operation: &str, parent: &TreeNode, values: &[u64]) -> ServiceError {
    validate_split(operation, parent, values).unwrap_err()
}

#[test]
fn splits_that_break_a_rule_are_refused() {
    let parent = leaf();
    assert_eq!(validate_split("operation", &parent, &[400, 600]), Ok(()));
    assert_eq!(
        refusal("", &parent, &[400, 600]),
        ServiceError::InvalidInput("split operation ID must not be empty".to_string())
    );
    let mut locked = leaf();
    locked.status = TreeNodeStatus::Unavailable;
    assert_eq!(
        refusal("operation", &locked, &[400, 600]),
        ServiceError::InvalidInput("parent leaf parent is not available".to_string())
    );
    let few = ServiceError::InvalidInput(
        "a split requires at least two non-zero child values".to_string(),
    );
    assert_eq!(refusal("operation", &parent, &[1_000]), few);
    assert_eq!(refusal("operation", &parent, &[]), few);
    assert_eq!(refusal("operation", &parent, &[0, 1_000]), few);
    assert_eq!(
        refusal("operation", &parent, &[u64::MAX, 1]),
        ServiceError::InvalidInput("split value overflow".to_string())
    );
    assert_eq!(
        refusal("operation", &parent, &[400, 601]),
        ServiceError::InvalidInput(
            "split children total 1001 does not equal parent value 1000".to_string()
        )
    );
}

#[test]
fn a_draft_holds_the_keys_of_the_children() {
    let draft = draft();
    assert_eq!(draft.operation_id, "operation");
    assert_eq!(draft.parent_node_id, id("parent"));
    assert_eq!(draft.child_values, vec![400, 600]);
    assert_eq!(draft.child_public_keys, vec![key(11).serialize(), key(12).serialize()]);
}

#[test]
fn a_draft_of_another_leaf_is_refused() {
    let draft = draft();
    let mut other = leaf();
    other.id = id("other");
    assert_eq!(
        service().prepare_split(&draft, &other).err(),
        Some(ServiceError::InvalidInput(
            "split draft parent does not match supplied parent".to_string()
        ))
    );
}

#[test]
fn a_draft_with_an_unreadable_key_is_refused() {
    let mut broken = draft();
    broken.child_public_keys[1] = vec![2; 33];
    broken.child_public_keys[1][0] = 9;
    assert_eq!(
        service().prepare_split(&broken, &leaf()).err(),
        Some(ServiceError::InvalidPublicKey)
    );
}

fn addresses_error(root: Option<AddressNode>) -> ServiceError {
    let draft = draft();
    let parent = leaf();
    let step = service().prepare_split(&draft, &parent).unwrap().parent_key_found(key(3));
    step.addresses_prepared(root).err().unwrap()
}

#[test]
fn unusable_addresses_are_refused() {
    let generic = |text: &str| ServiceError::Generic(text.to_string());
    assert_eq!(addresses_error(None), generic("missing prepared address root"));

    let mut root = address_root();
    root.address = None;
    assert_eq!(addresses_error(Some(root)), generic("missing prepared root address"));

    let mut root = address_root();
    root.address = Some(address(REGTEST_ADDRESS, 10));
    assert_eq!(addresses_error(Some(root)), ServiceError::InvalidVerifyingKey);

    let mut root = address_root();
    root.children.pop();
    assert_eq!(
        addresses_error(Some(root)),
        generic("operator returned 1 child addresses, expected 2")
    );

    let mut root = address_root();
    root.children[1].address = None;
    assert_eq!(addresses_error(Some(root)), generic("missing prepared child address"));

    let mut root = address_root();
    root.children[0].address = Some(address("no address", 21));
    assert_eq!(addresses_error(Some(root)), ServiceError::InvalidDepositAddress);

    let mut root = address_root();
    root.children[0].address = Some(address(MAINNET_ADDRESS, 21));
    assert_eq!(addresses_error(Some(root)), ServiceError::InvalidDepositAddressNetwork);

    let mut root = address_root();
    root.children[1].address =
        Some(PreparedAddress { address: REGTEST_ADDRESS.to_string(), verifying_key: vec![1] });
    assert_eq!(addresses_error(Some(root)), ServiceError::InvalidVerifyingKey);
}

#[test]
fn the_plan_keeps_every_job_in_its_place() {
    let plan = plan();
    assert_eq!(plan.operation_id, "operation");
    assert_eq!(plan.create_tree_request, vec![4, 5]);
    assert_eq!(plan.signing_jobs.len(), 12);
    let markers: Vec<u32> = plan
        .signing_jobs
        .iter()
        .map(|job| job.transaction().unwrap().inputs[0].sequence)
        .collect();
    assert_eq!(markers, vec![2, 3, 10, 11, 12, 13, 14, 20, 21, 22, 23, 24]);
    let spent: Vec<u64> =
        plan.signing_jobs.iter().map(|job| job.previous_output().value).collect();
    assert_eq!(spent, vec![1_000, 1_000, 400, 400, 390, 380, 390, 600, 600, 390, 380, 390]);
    for (place, job) in plan.signing_jobs.iter().enumerate() {
        assert_eq!(job.nonce, nonce(place as u8));
        let owner = if place < 2 {
            SplitJobOwner::Parent
        } else {
            SplitJobOwner::Child((place - 2) / 5)
        };
        assert_eq!(job.owner, owner);
    }
    assert_eq!(plan.child_values.iter().sum::<u64>(), leaf().value);
    assert_eq!(plan.signing_jobs[0].verifying_public_key, key(9).serialize());
    assert_eq!(plan.signing_jobs[7].verifying_public_key, key(22).serialize());
    assert_eq!(plan.signing_jobs[7].signing_public_key, key(12).serialize());
}

#[test]
fn a_child_without_all_its_refunds_is_refused() {
    let draft = draft();
    let parent = leaf();
    let mut child = child_transactions(0);
    child.direct_refund_tx = None;
    child.direct_from_cpfp_refund_tx = None;
    assert_eq!(
        assembly(&draft, &parent).child_created(child).err(),
        Some(ServiceError::Generic("missing direct refund transaction".to_string()))
    );
    let mut child = child_transactions(0);
    child.direct_from_cpfp_refund_tx = None;
    assert_eq!(
        assembly(&draft, &parent).child_created(child).err(),
        Some(ServiceError::Generic("missing direct-from-CPFP refund transaction".to_string()))
    );
}

#[test]
fn too_few_nonces_are_refused() {
    let draft = draft();
    let parent = leaf();
    let missing = || ServiceError::Generic("missing prepared split nonce".to_string());
    let step = |count: u8| {
        service()
            .prepare_split(&draft, &parent)
            .unwrap()
            .parent_key_found(key(3))
            .addresses_prepared(Some(address_root()))
            .unwrap()
            .transactions_created(transaction(2, &[400, 600]), transaction(3, &[395, 595]))
            .nonces_prepared((0..count).map(nonce).collect())
    };
    assert_eq!(step(1).err(), Some(missing()));
    assert_eq!(step(6).unwrap().child_created(child_transactions(0)).err(), Some(missing()));
    let mut taken = 0;
    let nonces = vec![nonce(1)];
    assert_eq!(next_nonce(&nonces, &mut taken), Ok(nonce(1)));
    assert_eq!(next_nonce(&nonces, &mut taken), Err(missing()));
    assert_eq!(taken, 1);
}

#[test]
fn a_leaf_without_outputs_cannot_be_split() {
    let draft = draft();
    let mut parent = leaf();
    parent.node_tx = transaction(1, &[]);
    let step = service()
        .prepare_split(&draft, &parent)
        .unwrap()
        .parent_key_found(key(3))
        .addresses_prepared(Some(address_root()))
        .unwrap()
        .transactions_created(transaction(2, &[400, 600]), transaction(3, &[395, 595]));
    assert_eq!(
        step.nonces_prepared((0..12).map(nonce).collect()).err(),
        Some(ServiceError::InvalidOutputIndex)
    );
}

#[test]
fn submission_sends_the_stored_request_under_the_stored_id() {
    let step = service().submit_split(plan(), Ok(())).unwrap();
    assert_eq!(step.request, vec![4, 5]);
    assert_eq!(step.idempotency_key, "operation");
    assert_eq!(step.pool, OperatorPool::Private);
    let submitted = step.submitted(vec![6, 7]);
    assert_eq!(submitted.plan, plan());
    assert_eq!(submitted.create_tree_response, vec![6, 7]);
    assert_eq!(
        service().submit_split(plan(), Err("bad wire type".to_string())).err(),
        Some(ServiceError::Generic("invalid split plan: bad wire type".to_string()))
    );
}

fn created(name: &str, first: u32, children: Vec<CreationResponseNode<u32>>) -> CreationResponseNode<u32> {
    CreationResponseNode {
        node_id: name.to_string(),
        tree_node_id: Some(id(name)),
        node_tx_signing_result: Some(first),
        direct_node_tx_signing_result: Some(first + 1),
        refund_tx_signing_result: Some(first + 2),
        direct_refund_tx_signing_result: Some(first + 3),
        direct_from_cpfp_refund_tx_signing_result: Some(first + 4),
        children,
    }
}

fn created_tree() -> CreationResponseNode<u32> {
    created("root", 0, vec![created("left", 2, Vec::new()), created("right", 7, Vec::new())])
}

fn submitted() -> SubmittedLeafSplit {
    SubmittedLeafSplit { plan: plan(), create_tree_response: vec![6, 7] }
}

fn result_of(number: u32) -> SigningResult {
    let identifier = Identifier { bytes: [number as u8; 32] };
    SigningResult {
        signing_commitments: ByOperator::new().inserted(OperatorCommitments {
            identifier,
            commitments: SigningCommitments { hiding: vec![number as u8], binding: vec![1] },
        }),
        signature_shares: ByOperator::new()
            .inserted(OperatorShare { identifier, share: vec![number as u8, 2] }),
        public_keys: ByOperator::new().inserted(OperatorKey { identifier, public_key: key(30) }),
    }
}

#[test]
fn signing_results_come_in_the_order_of_the_jobs() {
    let tree = created_tree();
    let results: Vec<u32> =
        response_signing_results(&tree).unwrap().into_iter().copied().collect();
    assert_eq!(results, (0..12).collect::<Vec<u32>>());
    let mut tree = created_tree();
    tree.refund_tx_signing_result = None;
    assert_eq!(response_signing_results(&tree).unwrap().len(), 12);
    tree.children[1].direct_refund_tx_signing_result = None;
    assert_eq!(response_signing_results(&tree).err(), Some(ServiceError::MissingTreeSignatures));
}

#[test]
fn a_split_is_finalized() {
    let submitted = submitted();
    let tree = created_tree();
    let binding = service().finalize_split(&submitted, Ok(Some(&tree))).unwrap();
    assert_eq!(binding.request.operation_id, "operation");
    assert_eq!(binding.request.child_node_ids, vec![id("left"), id("right")]);
    let mut inputs = binding.keys_bound().unwrap();
    let mut count: u32 = 0;
    while let Some(input) = inputs.next_input().unwrap() {
        assert_eq!(*input.result, count);
        let job = &submitted.plan.signing_jobs[count as usize];
        assert_eq!(input.transaction, job.transaction().unwrap());
        assert_eq!(input.input_index, 0);
        assert_eq!(input.previous_output, job.previous_output());
        inputs = inputs.input_found([count as u8; 32], Ok(result_of(count))).unwrap();
        count += 1;
    }
    assert_eq!(count, 12);
    assert_eq!(inputs.nonces(), (0..12).map(nonce).collect::<Vec<PreparedFrostNonce>>());
    let leaves: Vec<FrostDerivation> =
        inputs.frost_jobs.iter().map(|job| job.derivation.clone()).collect();
    assert_eq!(leaves[1], FrostDerivation::SigningLeaf { leaf_id: id("parent") });
    assert_eq!(leaves[2], FrostDerivation::SigningLeaf { leaf_id: id("left") });
    assert_eq!(leaves[11], FrostDerivation::SigningLeaf { leaf_id: id("right") });
    assert_eq!(inputs.frost_jobs[8].verifying_key, key(22));
    assert_eq!(inputs.frost_jobs[8].adaptor_public_key, None);

    let shares = (0..12)
        .map(|n: u8| FrostShareResult {
            commitment: FrostSigningCommitmentsWithNonces {
                commitments: SigningCommitments { hiding: vec![n], binding: vec![n, n] },
                nonces_ciphertext: Vec::new(),
            },
            signature_share: vec![n, 9],
        })
        .collect();
    let mut signatures = inputs.shares_made(shares).unwrap();
    let mut count: u8 = 0;
    while let Some(question) = signatures.next_signature().unwrap() {
        assert_eq!(question.message, [count; 32]);
        assert_eq!(question.self_signature, vec![count, 9]);
        assert_eq!(question.self_commitment.hiding, vec![count]);
        assert_eq!(question.statechain_signatures, result_of(count as u32).signature_shares);
        assert_eq!(question.statechain_public_keys, result_of(count as u32).public_keys);
        assert_eq!(question.statechain_commitments, result_of(count as u32).signing_commitments);
        let signer = if count < 2 { key(3) } else { key(11 + (count - 2) / 5) };
        assert_eq!(question.public_key, signer);
        signatures = signatures.signature_made(Some(vec![count])).unwrap();
        count += 1;
    }
    let step = signatures.finish();
    assert_eq!(step.pool, OperatorPool::Ordinary);
    assert_eq!(step.request.intent, SignatureIntent::Creation);
    let nodes = &step.request.node_signatures;
    assert_eq!(nodes.len(), 3);
    assert_eq!(nodes[0].node_id, "root");
    assert_eq!(nodes[0].node_tx_signature, vec![0]);
    assert_eq!(nodes[0].direct_node_tx_signature, vec![1]);
    assert_eq!(nodes[0].refund_tx_signature, Vec::<u8>::new());
    assert_eq!(nodes[0].direct_refund_tx_signature, Vec::<u8>::new());
    assert_eq!(nodes[0].direct_from_cpfp_refund_tx_signature, Vec::<u8>::new());
    assert_eq!(nodes[2].node_id, "right");
    assert_eq!(nodes[2].node_tx_signature, vec![7]);
    assert_eq!(nodes[2].direct_node_tx_signature, vec![8]);
    assert_eq!(nodes[2].refund_tx_signature, vec![9]);
    assert_eq!(nodes[2].direct_refund_tx_signature, vec![10]);
    assert_eq!(nodes[2].direct_from_cpfp_refund_tx_signature, vec![11]);

    let node = |name: &str| FinalizedNode {
        id: id(name),
        node: TreeNode { id: id(name), ..leaf() },
    };
    let result =
        step.finalized(vec![node("root"), node("right"), node("other"), node("left")]);
    let names: Vec<&str> = result.children.iter().map(|child| child.id.id.as_str()).collect();
    assert_eq!(names, vec!["right", "left"]);
}

#[test]
fn responses_that_do_not_fit_the_plan_are_refused() {
    let generic = |text: &str| Some(ServiceError::Generic(text.to_string()));
    let submitted = submitted();
    let service = service();
    let none: Result<Option<&CreationResponseNode<u32>>, String> = Ok(None);
    assert_eq!(
        service.finalize_split(&submitted, none).err(),
        generic("missing created tree root")
    );
    let garbled: Result<Option<&CreationResponseNode<u32>>, String> = Err("truncated".to_string());
    assert_eq!(
        service.finalize_split(&submitted, garbled).err(),
        generic("invalid submitted split: truncated")
    );
    let mut tree = created_tree();
    tree.children.pop();
    assert_eq!(
        service.finalize_split(&submitted, Ok(Some(&tree))).err(),
        generic("operator created 1 children, expected 2")
    );
    let mut tree = created_tree();
    tree.children[1].tree_node_id = None;
    assert_eq!(
        service.finalize_split(&submitted, Ok(Some(&tree))).err(),
        Some(ServiceError::InvalidNodeId("right".to_string()))
    );
    let mut shorter = plan();
    shorter.signing_jobs.pop();
    let shorter = SubmittedLeafSplit { plan: shorter, create_tree_response: Vec::new() };
    let tree = created_tree();
    assert_eq!(
        service.finalize_split(&shorter, Ok(Some(&tree))).unwrap().keys_bound().err(),
        generic("operator returned 12 signing results, expected 11")
    );
}

#[test]
fn unreadable_signing_material_is_refused() {
    let tree = created_tree();
    let mut broken = submitted();
    broken.plan.signing_jobs[0].transaction = vec![1, 2, 3];
    let inputs =
        service().finalize_split(&broken, Ok(Some(&tree))).unwrap().keys_bound().unwrap();
    assert_eq!(inputs.next_input().err(), Some(ServiceError::InvalidTransaction));

    let mut broken = submitted();
    broken.plan.signing_jobs[0].verifying_public_key = vec![1];
    let inputs =
        service().finalize_split(&broken, Ok(Some(&tree))).unwrap().keys_bound().unwrap();
    assert_eq!(
        inputs.input_found([0; 32], Ok(result_of(0))).err(),
        Some(ServiceError::InvalidVerifyingKey)
    );

    let mut broken = submitted();
    broken.plan.signing_jobs[0].owner = SplitJobOwner::Child(2);
    let inputs =
        service().finalize_split(&broken, Ok(Some(&tree))).unwrap().keys_bound().unwrap();
    assert_eq!(
        inputs.input_found([0; 32], Ok(result_of(0))).err(),
        Some(ServiceError::Generic("missing split child node ID".to_string()))
    );

    let whole = submitted();
    let mut inputs =
        service().finalize_split(&whole, Ok(Some(&tree))).unwrap().keys_bound().unwrap();
    for number in 0..12 {
        inputs = inputs.input_found([0; 32], Ok(result_of(number))).unwrap();
    }
    assert_eq!(
        inputs.shares_made(Vec::new()).err(),
        Some(ServiceError::Generic("signer returned 0 shares, expected 12".to_string()))
    );
}

#[test]
fn a_signature_that_cannot_be_made_is_refused() {
    let tree = created_tree();
    let whole = submitted();
    let mut inputs =
        service().finalize_split(&whole, Ok(Some(&tree))).unwrap().keys_bound().unwrap();
    for number in 0..12 {
        inputs = inputs.input_found([0; 32], Ok(result_of(number))).unwrap();
    }
    let shares = (0..12)
        .map(|_| FrostShareResult {
            commitment: FrostSigningCommitmentsWithNonces {
                commitments: SigningCommitments { hiding: Vec::new(), binding: Vec::new() },
                nonces_ciphertext: Vec::new(),
            },
            signature_share: Vec::new(),
        })
        .collect();
    let signatures = inputs.shares_made(shares).unwrap();
    assert_eq!(
        signatures.signature_made(None).err(),
        Some(ServiceError::InvalidSignatureShare)
    );
}

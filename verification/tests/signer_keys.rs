use std::collections::HashMap;
use std::sync::Arc;

use spark_wallet::byte_map::ByteMap;
use spark_wallet::derivation::{
    identity_path, leaf_child_index, signing_path, static_deposit_path, DerivationPath, HARDENED,
};
use spark_wallet::error::SignerError;
use spark_wallet::frost::FrostDerivation;
use spark_wallet::keys::PublicKey;
use spark_wallet::signer::requests::{
    BindLeafSplitKeysRequest, PrepareLeafSplitKeysRequest, PreparedLeafSplitKeys,
};
use spark_wallet::signer::secret::{
    encrypted_bytes, SecretSource, SecretStep, SparkSignerAdapter, SubtractSecretsRequest,
};
use spark_wallet::signer::split_keys::{store_answer, PendingKeys, SplitStep};
use spark_wallet::tree::TreeNodeId;

use bitcoin::secp256k1::{Scalar, Secp256k1, SecretKey};

fn id(text: &str) -> TreeNodeId {
    TreeNodeId { id: text.to_string() }
}

fn generic<T>(text: &str) -> Result<T, SignerError> {
    Err(SignerError::Generic(text.to_string()))
}

/// A signer that keeps its secrets in the clear: a ciphertext is the secret itself.
struct TestSigner {
    master: [u8; 32],
}

impl TestSigner {
    fn secret(&self, source: &SecretSource) -> SecretKey {
        match source {
            SecretSource::Encrypted(bytes) => SecretKey::from_slice(bytes).unwrap(),
            SecretSource::Derived(path) => {
                let secp = Secp256k1::new();
                let master =
                    bitcoin::bip32::Xpriv::new_master(bitcoin::Network::Regtest, &self.master)
                        .unwrap();
                let children: Vec<bitcoin::bip32::ChildNumber> =
                    path.children.iter().map(|child| (*child).into()).collect();
                master.derive_priv(&secp, &children).unwrap().private_key
            }
        }
    }

    fn public_key(&self, source: &SecretSource) -> PublicKey {
        let key = self.secret(source).public_key(&Secp256k1::new());
        PublicKey::from_slice(&key.serialize()).unwrap()
    }

    fn random_secret(&self, number: u8) -> Vec<u8> {
        vec![number; 32]
    }

    fn subtract(&self, request: &SubtractSecretsRequest) -> SecretSource {
        let negated = self.secret(&request.subtracted).negate();
        let difference = self
            .secret(&request.from)
            .add_tweak(&Scalar::from_be_bytes(negated.secret_bytes()).unwrap())
            .unwrap();
        SecretSource::Encrypted(difference.secret_bytes().to_vec())
    }
}

#[derive(Default)]
struct TestStore {
    pending: HashMap<(String, String), Vec<Vec<u8>>>,
    operations: HashMap<String, Vec<Vec<u8>>>,
    leaves: HashMap<String, Vec<u8>>,
}

type Adapter = SparkSignerAdapter<TestSigner, ()>;

fn adapter() -> Adapter {
    SparkSignerAdapter::new(Arc::new(TestSigner { master: [42; 32] }))
        .with_leaf_key_override_store(Arc::new(()))
}

fn secret_of(adapter: &Adapter, store: &TestStore, derivation: &FrostDerivation) -> SecretSource {
    match adapter.secret_source_for(derivation).unwrap() {
        SecretStep::Known(source) => source,
        SecretStep::StoredKeyNeeded(asked) => {
            let stored = store.leaves.get(&asked.leaf_id.id).cloned();
            asked.stored_key_found(Ok(stored)).unwrap()
        }
    }
}

fn public_key_of(adapter: &Adapter, store: &TestStore, leaf: &TreeNodeId) -> PublicKey {
    let source = match adapter.get_public_key_for_leaf(leaf).unwrap() {
        SecretStep::Known(source) => source,
        SecretStep::StoredKeyNeeded(asked) => {
            let stored = store.leaves.get(&asked.leaf_id.id).cloned();
            asked.stored_key_found(Ok(stored)).unwrap()
        }
    };
    adapter.signer.public_key(&source)
}

fn split(
    adapter: &Adapter,
    store: &mut TestStore,
    operation: &str,
    parent: &TreeNodeId,
    count: usize,
) -> Result<PreparedLeafSplitKeys, SignerError> {
    let step = adapter.prepare_leaf_split_keys(PrepareLeafSplitKeysRequest {
        operation_id: operation.to_string(),
        parent_leaf_id: parent.clone(),
        child_count: count,
    })?;
    let place = (operation.to_string(), parent.id.clone());
    let mut keys = match step.pending_keys_found(Ok(store.pending.get(&place).cloned()))? {
        PendingKeys::Stored(keys) => keys,
        PendingKeys::ParentSecretNeeded(step) => {
            let secret = secret_of(adapter, store, &step.derivation());
            let mut run = step.secret_found(secret);
            let mut number = 20 * operation.len() as u8;
            loop {
                match run.next()? {
                    SplitStep::RandomSecretNeeded(next) => {
                        number += 1;
                        let step = next.random_secret_made(adapter.signer.random_secret(number));
                        let difference = adapter.signer.subtract(&step.question());
                        run = step.difference_found(difference)?;
                    }
                    SplitStep::StoreNeeded(step) => {
                        store.pending.insert(place, step.children.clone());
                        store.operations.insert(operation.to_string(), step.children.clone());
                        break step.stored(Ok(()))?;
                    }
                }
            }
        }
    };
    while let Some(secret) = keys.next() {
        let key = adapter.signer.public_key(&secret);
        keys = keys.public_key_found(key);
    }
    Ok(keys.finish())
}

fn combine(keys: &[PublicKey]) -> PublicKey {
    let parse =
        |key: &PublicKey| bitcoin::secp256k1::PublicKey::from_slice(&key.serialize()).unwrap();
    let sum = keys[1..]
        .iter()
        .try_fold(parse(&keys[0]), |sum, key| sum.combine(&parse(key)))
        .unwrap();
    PublicKey::from_slice(&sum.serialize()).unwrap()
}

#[test]
fn split_keys_conserve_parent_and_survive_restart_and_resplit() {
    let mut store = TestStore::default();
    let parent_id = id("01934b8e-6d0c-7000-8000-000000000001");
    let first_adapter = adapter();
    let parent_public_key = public_key_of(&first_adapter, &store, &parent_id);

    let first = split(&first_adapter, &mut store, "first", &parent_id, 3).unwrap();
    assert_eq!(first.child_public_keys.len(), 3);
    assert_eq!(combine(&first.child_public_keys), parent_public_key);
    let retry = split(&first_adapter, &mut store, "first", &parent_id, 3).unwrap();
    assert_eq!(retry.child_public_keys, first.child_public_keys);

    let child_ids = vec![id("child-a"), id("child-b"), id("child-c")];
    let accepted = first_adapter
        .bind_leaf_split_keys(BindLeafSplitKeysRequest {
            operation_id: "first".to_string(),
            child_node_ids: child_ids.clone(),
        })
        .unwrap();
    let keys = store.operations.get(&accepted.operation_id).unwrap().clone();
    for (child, secret) in accepted.child_node_ids.iter().zip(keys) {
        store.leaves.insert(child.id.clone(), secret);
    }

    let restarted = adapter();
    assert_eq!(
        public_key_of(&restarted, &store, &child_ids[0]),
        first.child_public_keys[0]
    );
    let second = split(&restarted, &mut store, "second", &child_ids[0], 2).unwrap();
    assert_eq!(combine(&second.child_public_keys), first.child_public_keys[0]);
}

#[test]
fn split_requests_that_break_a_rule_are_refused() {
    let request = |operation: &str, count: usize| PrepareLeafSplitKeysRequest {
        operation_id: operation.to_string(),
        parent_leaf_id: id("parent"),
        child_count: count,
    };
    let without: Adapter = SparkSignerAdapter::new(Arc::new(TestSigner { master: [1; 32] }));
    assert_eq!(
        without.prepare_leaf_split_keys(request("", 1)),
        generic("split operation ID must not be empty")
    );
    assert_eq!(
        without.prepare_leaf_split_keys(request("operation", 1)),
        generic("a leaf split requires at least two children")
    );
    assert_eq!(
        without.prepare_leaf_split_keys(request("operation", 2)),
        generic("leaf key override store is not configured")
    );
    let step = adapter().prepare_leaf_split_keys(request("operation", 3)).unwrap();
    assert_eq!(
        step.pending_keys_found(Ok(Some(vec![vec![1], vec![2]]))).err(),
        Some(SignerError::Generic(
            "split operation operation already has 2 children, requested 3".to_string()
        ))
    );
    let step = adapter().prepare_leaf_split_keys(request("operation", 3)).unwrap();
    assert_eq!(
        step.pending_keys_found(Err("disk full".to_string())).err(),
        Some(SignerError::Generic("disk full".to_string()))
    );
    let binding = |ids: Vec<TreeNodeId>| BindLeafSplitKeysRequest {
        operation_id: "operation".to_string(),
        child_node_ids: ids,
    };
    assert_eq!(
        without.bind_leaf_split_keys(binding(Vec::new())),
        generic("leaf key override store is not configured")
    );
    assert_eq!(
        adapter().bind_leaf_split_keys(binding(Vec::new())),
        generic("missing child node IDs")
    );
    assert_eq!(store_answer(Err("no keys".to_string())), generic("no keys"));
    assert_eq!(store_answer(Ok(())), Ok(()));
}

#[test]
fn a_remainder_that_is_derived_cannot_be_stored() {
    let step = adapter()
        .prepare_leaf_split_keys(PrepareLeafSplitKeysRequest {
            operation_id: "operation".to_string(),
            parent_leaf_id: id("parent"),
            child_count: 2,
        })
        .unwrap();
    let parent = match step.pending_keys_found(Ok(None)).unwrap() {
        PendingKeys::ParentSecretNeeded(step) => step,
        PendingKeys::Stored(_) => panic!("nothing was stored"),
    };
    let derived = SecretSource::Derived(identity_path().unwrap());
    let split = parent.secret_found(SecretSource::Encrypted(vec![1]));
    let split = match split.next().unwrap() {
        SplitStep::RandomSecretNeeded(split) => split,
        SplitStep::StoreNeeded(_) => panic!("one child is left"),
    };
    let split = split.random_secret_made(vec![2]).difference_found(derived.clone()).unwrap();
    assert_eq!(split.children, vec![vec![2]]);
    let refused = SignerError::Generic("split key must be stored as an encrypted secret".to_string());
    assert_eq!(split.next().err(), Some(refused));
    assert!(encrypted_bytes(&derived).is_err());
    assert_eq!(encrypted_bytes(&SecretSource::Encrypted(vec![3])), Ok(vec![3]));
}

#[test]
fn paths_follow_the_purposes() {
    assert_eq!(identity_path().unwrap().children, vec![HARDENED]);
    assert_eq!(static_deposit_path(7).unwrap().children, vec![HARDENED + 3, HARDENED + 7]);
    assert_eq!(
        static_deposit_path(HARDENED),
        generic(
            "failed to create child from 2147483648: \
             child number 2147483648 is invalid (not within [0, 2^31 - 1])"
        )
    );
    let mut digest = [0xff; 32];
    digest[..4].copy_from_slice(&[0x81, 0x02, 0x03, 0x04]);
    assert_eq!(leaf_child_index(&digest), 0x0102_0304);
    assert_ne!(static_deposit_path(7), static_deposit_path(8));
    assert_ne!(static_deposit_path(7), signing_path(&id("abc")));
    // The digest of "abc" begins with ba7816bf.
    assert_eq!(
        signing_path(&id("abc")).unwrap().children,
        vec![HARDENED + 1, HARDENED + (0xba78_16bf - HARDENED)]
    );
    assert_eq!(signing_path(&id("abc")).unwrap().children[1], 0xba78_16bf);
    // The digest of the empty text begins with e3b0c442.
    assert_eq!(signing_path(&id("")).unwrap().children[1], 0xe3b0_c442);
}

#[test]
fn secrets_come_from_the_store_or_from_the_path() {
    let leaf = FrostDerivation::SigningLeaf { leaf_id: id("abc") };
    let derived = SecretSource::Derived(DerivationPath {
        children: vec![HARDENED + 1, 0xba78_16bf],
    });
    let without: Adapter = SparkSignerAdapter::new(Arc::new(TestSigner { master: [1; 32] }));
    assert_eq!(without.secret_source_for(&leaf), Ok(SecretStep::Known(derived.clone())));
    let asked = match adapter().secret_source_for(&leaf) {
        Ok(SecretStep::StoredKeyNeeded(asked)) => asked,
        other => panic!("expected a question to the store, got {:?}", other),
    };
    assert_eq!(asked.leaf_id, id("abc"));
    assert_eq!(asked.stored_key_found(Ok(None)), Ok(derived));
    let ask = || match adapter().secret_source_for(&leaf) {
        Ok(SecretStep::StoredKeyNeeded(asked)) => asked,
        other => panic!("expected a question to the store, got {:?}", other),
    };
    assert_eq!(ask().stored_key_found(Ok(Some(vec![9]))), Ok(SecretSource::Encrypted(vec![9])));
    assert_eq!(ask().stored_key_found(Err("locked".to_string())), generic("locked"));
    assert_eq!(
        adapter().secret_source_for(&FrostDerivation::StaticDeposit { index: 2 }),
        Ok(SecretStep::Known(SecretSource::Derived(DerivationPath {
            children: vec![HARDENED + 3, HARDENED + 2]
        })))
    );
    assert_eq!(
        adapter().secret_source_for(&FrostDerivation::HtlcPreimage),
        generic("HtlcPreimage FROST derivation not yet supported by the default adapter")
    );
    assert_eq!(
        adapter().secret_source_for(&FrostDerivation::Identity),
        generic("Identity FROST derivation not supported")
    );
}

#[test]
fn a_map_keeps_one_value_for_each_key() {
    let filled = |entries: &[(&str, u8)]| {
        entries.iter().fold(ByteMap::new(), |map, (name, value)| {
            map.inserted(name.to_string(), vec![*value])
        })
    };
    let map = filled(&[("b", 1), ("a", 2), ("é", 5), ("ab", 4), ("b", 3)]);
    let expected: Vec<(String, Vec<u8>)> = [("a", 2), ("ab", 4), ("b", 3), ("é", 5)]
        .iter()
        .map(|(name, value)| (name.to_string(), vec![*value]))
        .collect();
    assert_eq!(map.clone().into_entries(), expected);
    assert_eq!(map, filled(&[("é", 5), ("b", 3), ("ab", 4), ("a", 2)]));
    assert_eq!(ByteMap::new().into_entries(), Vec::new());
}

#[test]
fn public_keys_are_read_and_written() {
    let generator = "0279be667ef9dcbbac55a06295ce870b07029bfcdb2dce28d959f2815b16f81798";
    let mut one = [0; 32];
    one[31] = 1;
    let key = PublicKey::from_secret(&one).unwrap();
    assert_eq!(hex::encode(key.serialize()), generator);
    let uncompressed = key.serialize_uncompressed();
    assert_eq!(uncompressed.len(), 65);
    assert_eq!(uncompressed[0], 4);
    assert_eq!(uncompressed[1..33], key.serialize()[1..]);
    assert_eq!(PublicKey::from_slice(&uncompressed), Some(key));
    assert!(PublicKey::from_secret(&[0; 32]).is_none());
    assert!(PublicKey::from_slice(&[2; 32]).is_none());
    assert!(key.same(&key));
    assert!(!key.same(&PublicKey::from_secret(&[2; 32]).unwrap()));
}

use std::sync::Arc;

use spark_wallet::by_operator::ByOperator;
use spark_wallet::derivation::{DerivationPath, HARDENED};
use spark_wallet::error::SignerError;
use spark_wallet::frost::{
    decode_prepared_nonce, encode_prepared_nonce, FrostDerivation, FrostJob, FrostShareResult,
    FrostSigningCommitmentsWithNonces, OperatorCommitments, OperatorKey, OperatorShare,
    PreparedFrostNonce, SigningCommitments,
};
use spark_wallet::keys::{Identifier, PublicKey};
use spark_wallet::signer::batch::FrostStep;
use spark_wallet::signer::claim::{
    claim_of, ClaimLeafKeyTweak, ClaimStep, LeafToClaim, PrepareClaimRequest,
};
use spark_wallet::signer::deposits::{
    PrepareStaticDepositClaimRequest, PrepareStaticDepositRequest, SignStaticDepositRefundRequest,
    StartStaticDepositRefundRequest,
};
use spark_wallet::signer::identity::{
    EcdsaSignature, PrepareTokenTransactionRequest, SignSparkInvoiceRequest,
};
use spark_wallet::signer::lightning::{receive_with_preimage, PrepareLightningReceiveRequest};
use spark_wallet::signer::packages::{encrypted_for_operator, operator_bundle, PackageRun};
use spark_wallet::signer::secret::{SecretSource, SparkSignerAdapter};
use spark_wallet::signer::shares::{
    find_share, proto_secret_share, pubkey_shares_tweak, OperatorRecipient, VerifiableSecretShare,
};
use spark_wallet::signer::transfer::{
    transfer_id_bytes, LeafToTransfer, PrepareTransferRequest, SecretToSplit, TransferId,
    TransferRun, TransferStep,
};
use spark_wallet::tagged::TaggedField;
use spark_wallet::tree::TreeNodeId;

type Adapter = SparkSignerAdapter<(), ()>;

fn adapter() -> Adapter {
    SparkSignerAdapter::new(Arc::new(()))
}

fn id(text: &str) -> TreeNodeId {
    TreeNodeId { id: text.to_string() }
}

fn key(secret: u8) -> PublicKey {
    PublicKey::from_secret(&[secret; 32]).unwrap()
}

fn generic<T>(text: &str) -> Result<T, SignerError> {
    Err(SignerError::Generic(text.to_string()))
}

fn identity() -> DerivationPath {
    DerivationPath { children: vec![HARDENED] }
}

fn scalar(number: u8) -> [u8; 32] {
    let mut bytes = [0; 32];
    bytes[31] = number;
    bytes
}

fn share(index: u8, value: u8) -> VerifiableSecretShare {
    VerifiableSecretShare {
        index: scalar(index),
        share: scalar(value),
        proofs: vec![vec![2, value]],
    }
}

fn recipient(number: u8) -> OperatorRecipient {
    OperatorRecipient {
        id: number as usize,
        identifier: Identifier { bytes: scalar(number + 1) },
        public_key: key(number + 50),
    }
}

fn hex_identifier(number: u8) -> String {
    hex::encode(scalar(number + 1))
}

#[test]
fn operators_find_their_shares() {
    let shares = vec![share(3, 30), share(1, 10), share(1, 11)];
    assert_eq!(find_share(&shares, 0), Some(&shares[1]));
    assert_eq!(find_share(&shares, 2), Some(&shares[0]));
    assert_eq!(find_share(&shares, 1), None);
    let mut large = share(0, 5);
    large.index = [0; 32];
    large.index[30] = 1;
    let shares = vec![large];
    assert_eq!(find_share(&shares, 255), Some(&shares[0]));
    let sent = proto_secret_share(&share(1, 10));
    assert_eq!(sent.secret_share, scalar(10).to_vec());
    assert_eq!(sent.proofs, vec![vec![2, 10]]);
}

#[test]
fn public_key_tweaks_come_from_the_shares() {
    let recipients = vec![recipient(0), recipient(1)];
    let tweaks = pubkey_shares_tweak(&recipients, &vec![share(1, 1), share(2, 2)]).unwrap();
    let mut entries = tweaks.into_entries();
    entries.sort();
    // The generator of the curve and its double.
    assert_eq!(
        hex::encode(&entries[0].1),
        "0279be667ef9dcbbac55a06295ce870b07029bfcdb2dce28d959f2815b16f81798"
    );
    assert_eq!(
        hex::encode(&entries[1].1),
        "02c6047f9441ed7d6d3045406e95c07cd85c778e4b8cef3ca7abac09b95c709ee5"
    );
    assert_eq!(entries[0].0, hex_identifier(0));
    assert_eq!(entries[1].0, hex_identifier(1));
    assert_eq!(
        pubkey_shares_tweak(&recipients, &vec![share(1, 1)]),
        generic("Share not found for operator 1")
    );
    assert_eq!(
        pubkey_shares_tweak(&recipients, &vec![share(1, 0), share(2, 2)]),
        generic("Invalid secret share")
    );
}

#[test]
fn transfer_ids_are_read_without_dashes() {
    let id = |text: &str| TransferId { id: text.to_string() };
    assert_eq!(transfer_id_bytes(&id("01-ab-Cd")), Ok(vec![0x01, 0xab, 0xcd]));
    assert_eq!(transfer_id_bytes(&id("-")), Ok(Vec::new()));
    assert_eq!(
        transfer_id_bytes(&id("0-x0")),
        generic("Failed to decode transfer ID: Odd number of digits")
    );
    assert_eq!(
        transfer_id_bytes(&id("0-x00")),
        generic("Failed to decode transfer ID: Invalid character 'x' at position 1")
    );
}

fn transfer_request() -> PrepareTransferRequest {
    PrepareTransferRequest {
        transfer_id: TransferId { id: "00ff-10".to_string() },
        receiver_public_key: key(40),
        leaves: vec![
            LeafToTransfer { node_id: id("leaf-a"), new_leaf_id: id("abc") },
            LeafToTransfer { node_id: id("leaf-b"), new_leaf_id: id("def") },
        ],
        operator_recipients: vec![recipient(0), recipient(1)],
        threshold: 2,
    }
}

fn prepare_leaf(run: TransferRun, number: u8) -> TransferRun {
    let name = if number == 0 { "leaf-a" } else { "leaf-b" };
    assert_eq!(run.derivation(), FrostDerivation::SigningLeaf { leaf_id: id(name) });
    let step = run.secret_found(SecretSource::Encrypted(vec![number])).unwrap();
    if number == 0 {
        assert_eq!(
            step.new_signing_key,
            SecretSource::Derived(DerivationPath { children: vec![HARDENED + 1, 0xba78_16bf] })
        );
    }
    assert_eq!(step.secret(), &step.new_signing_key);
    let step = step.public_key_found(key(60 + number));
    let question = step.question();
    assert_eq!(question.from, SecretSource::Encrypted(vec![number]));
    assert_eq!(question.subtracted, step.new_signing_key);
    let step = step.difference_found(SecretSource::Encrypted(vec![70 + number]));
    assert_eq!(
        step.split.secret,
        SecretToSplit::SecretSource(SecretSource::Encrypted(vec![70 + number]))
    );
    assert_eq!(step.split.threshold, 2);
    assert_eq!(step.split.share_count, 2);
    let shares = vec![share(2, 20 + number), share(1, 10 + number)];
    let step = step.shares_made(shares).unwrap();
    let question = step.question();
    assert_eq!(question.secret, step.new_signing_key);
    assert_eq!(question.receiver, key(40));
    let step = step.cipher_made(vec![80 + number]).unwrap();
    assert_eq!(step.signing.path, identity());
    let mut payload = name.as_bytes().to_vec();
    payload.extend_from_slice(b"00ff-10");
    payload.push(80 + number);
    assert_eq!(step.signing.message, payload);
    step.signature_made(EcdsaSignature { compact: [90 + number; 64] }).unwrap()
}

#[test]
fn a_transfer_tells_every_operator_of_every_leaf() {
    let mut run = adapter().prepare_transfer(transfer_request());
    let mut number = 0;
    let mut packages = loop {
        match run.next() {
            TransferStep::SecretNeeded(next) => {
                run = prepare_leaf(next, number);
                number += 1;
            }
            TransferStep::PackagesNeeded(packages) => break packages,
        }
    };
    assert_eq!(number, 2);
    let mut place: u8 = 0;
    while let Some(bundle) = packages.run.next() {
        assert_eq!(bundle.public_key, key(50 + place).serialize_uncompressed());
        assert_eq!(bundle.leaves.len(), 2);
        for (leaf, told) in bundle.leaves.iter().enumerate() {
            let leaf = leaf as u8;
            assert_eq!(told.leaf_id, if leaf == 0 { "leaf-a" } else { "leaf-b" });
            let own = told.secret_share_tweak.as_ref().unwrap();
            assert_eq!(own.secret_share, scalar(10 * (place + 1) + leaf).to_vec());
            assert_eq!(told.secret_cipher, vec![80 + leaf]);
            assert_eq!(told.signature, vec![90 + leaf; 64]);
            assert_eq!(told.refund_signature, Vec::<u8>::new());
            assert_eq!(told.direct_refund_signature, Vec::<u8>::new());
            assert_eq!(told.direct_from_cpfp_refund_signature, Vec::<u8>::new());
            let tweaks = told.pubkey_shares_tweak.clone().into_entries();
            assert_eq!(tweaks.len(), 2);
            assert!(tweaks.contains(&(
                hex_identifier(1),
                PublicKey::from_secret(&scalar(20 + leaf)).unwrap().serialize()
            )));
        }
        packages.run = packages.run.encrypted(Ok(vec![place, 1])).ok().unwrap();
        place += 1;
    }
    let step = packages.finish().ok().unwrap();
    assert_eq!(step.input.tags, vec!["spark", "transfer", "signing payload"]);
    assert_eq!(step.input.fields.len(), 2);
    assert_eq!(step.input.fields[0], TaggedField::Bytes(vec![0x00, 0xff, 0x10]));
    let map = match &step.input.fields[1] {
        TaggedField::ByteMap(map) => map.clone().into_entries(),
        other => panic!("expected the packages, got {:?}", other),
    };
    assert_eq!(map, vec![(hex_identifier(0), vec![0, 1]), (hex_identifier(1), vec![1, 1])]);
    let step = step.message_made(vec![7, 8]).ok().unwrap();
    assert_eq!(step.signing.path, identity());
    assert_eq!(step.signing.message, vec![7, 8]);
    let prepared = step.signature_made(EcdsaSignature { compact: [1; 64] });
    assert_eq!(prepared.operator_packages.len(), 2);
    assert_eq!(prepared.operator_packages[1].operator_identifier, recipient(1).identifier);
    assert_eq!(prepared.operator_packages[1].encrypted_package, vec![1, 1]);
    assert_eq!(prepared.new_leaf_keys.len(), 2);
    assert_eq!(prepared.new_leaf_keys[0].node_id, id("leaf-a"));
    assert_eq!(prepared.new_leaf_keys[0].new_signing_public_key, key(60));
    assert_eq!(prepared.new_leaf_keys[1].new_signing_public_key, key(61));
    assert_eq!(prepared.transfer_user_signature, EcdsaSignature { compact: [1; 64] });
}

#[test]
fn a_transfer_needs_a_share_for_every_operator() {
    let run = match adapter().prepare_transfer(transfer_request()).next() {
        TransferStep::SecretNeeded(run) => run,
        TransferStep::PackagesNeeded(_) => panic!("two leaves are left"),
    };
    let step = run
        .secret_found(SecretSource::Encrypted(vec![1]))
        .ok()
        .unwrap()
        .public_key_found(key(60))
        .difference_found(SecretSource::Encrypted(vec![2]));
    assert_eq!(
        step.shares_made(vec![share(1, 1)]).err(),
        Some(SignerError::Generic("Share not found for operator 1".to_string()))
    );
}

#[test]
fn a_transfer_with_an_unreadable_id_is_refused() {
    let mut request = transfer_request();
    request.leaves.clear();
    request.operator_recipients.clear();
    request.transfer_id = TransferId { id: "0".to_string() };
    let packages = match adapter().prepare_transfer(request).next() {
        TransferStep::PackagesNeeded(packages) => packages,
        TransferStep::SecretNeeded(_) => panic!("there is no leaf"),
    };
    assert_eq!(
        packages.finish().err(),
        Some(SignerError::Generic(
            "Failed to decode transfer ID: Odd number of digits".to_string()
        ))
    );
}

#[test]
fn operators_that_share_an_identifier_share_a_bundle() {
    let mut twin = recipient(1);
    twin.identifier = recipient(0).identifier;
    let recipients = vec![recipient(0), twin, recipient(2)];
    let told = |name: &str| ClaimLeafKeyTweak {
        leaf_id: name.to_string(),
        secret_share_tweak: None,
        pubkey_shares_tweak: spark_wallet::byte_map::ByteMap::new(),
    };
    let rows = vec![vec![told("a0"), told("a1"), told("a2")], vec![told("b0"), told("b1"), told("b2")]];
    let names = |place: usize| -> Vec<String> {
        operator_bundle(&recipients, &rows, place).into_iter().map(|tweak| tweak.leaf_id).collect()
    };
    assert_eq!(names(0), vec!["a0", "a1", "b0", "b1"]);
    assert_eq!(names(1), Vec::<String>::new());
    assert_eq!(names(2), vec!["a2", "b2"]);
}

#[test]
fn a_failed_encryption_is_reported() {
    assert_eq!(
        encrypted_for_operator(Err("bad point".to_string())),
        generic("ECIES encryption failed: bad point")
    );
    assert_eq!(encrypted_for_operator(Ok(vec![1])), Ok(vec![1]));
    let run: PackageRun<ClaimLeafKeyTweak> =
        PackageRun { recipients: vec![recipient(0)], rows: Vec::new(), packages: Vec::new() };
    assert_eq!(
        run.encrypted(Err("bad point".to_string())).err(),
        Some(SignerError::Generic("ECIES encryption failed: bad point".to_string()))
    );
}

#[test]
fn a_claim_tells_every_operator_of_every_leaf() {
    let request = PrepareClaimRequest {
        transfer_id: TransferId { id: "00".to_string() },
        sender_identity_public_key: key(41),
        leaves: vec![LeafToClaim { node_id: id("abc"), leaf_key_ciphertext: vec![5, 6] }],
        operator_recipients: vec![recipient(0), recipient(1)],
        threshold: 1,
    };
    let step = match adapter().prepare_claim(request).next().ok().unwrap() {
        ClaimStep::TweakNeeded(step) => step,
        ClaimStep::PackagesNeeded(_) => panic!("one leaf is left"),
    };
    assert_eq!(step.incoming_key, SecretSource::Encrypted(vec![5, 6]));
    assert_eq!(
        step.new_signing_key,
        SecretSource::Derived(DerivationPath { children: vec![HARDENED + 1, 0xba78_16bf] })
    );
    let question = step.question();
    assert_eq!(question.from, SecretSource::Encrypted(vec![5, 6]));
    assert_eq!(question.subtracted, step.new_signing_key);
    let step = step.difference_found(SecretSource::Encrypted(vec![7]));
    assert_eq!(
        step.split.secret,
        SecretToSplit::SecretSource(SecretSource::Encrypted(vec![7]))
    );
    assert_eq!(step.split.threshold, 1);
    assert_eq!(step.split.share_count, 2);
    let run = step.shares_made(vec![share(1, 1), share(2, 2)]).ok().unwrap();
    let mut packages = match run.next().ok().unwrap() {
        ClaimStep::PackagesNeeded(packages) => packages,
        ClaimStep::TweakNeeded(_) => panic!("no leaf is left"),
    };
    let mut place: u8 = 0;
    while let Some(bundle) = packages.next() {
        assert_eq!(bundle.leaves.len(), 1);
        assert_eq!(bundle.leaves[0].leaf_id, "abc");
        let own = bundle.leaves[0].secret_share_tweak.as_ref().unwrap();
        assert_eq!(own.secret_share, scalar(place + 1).to_vec());
        packages = packages.encrypted(Ok(vec![place])).ok().unwrap();
        place += 1;
    }
    let claim = claim_of(packages);
    assert_eq!(claim.operator_packages.len(), 2);
    assert_eq!(claim.operator_packages[1].encrypted_package, vec![1]);
}

#[test]
fn a_receive_locks_its_preimage_to_the_operators() {
    let request = || PrepareLightningReceiveRequest {
        operator_recipients: vec![recipient(0), recipient(1)],
        threshold: 2,
    };
    let step = receive_with_preimage(request(), [0; 32]);
    assert_eq!(
        hex::encode(step.payment_hash),
        "66687aadf862bd776c8fc18b8e9f8e20089714856ee233b3902a591d0d5f2925"
    );
    assert_eq!(step.split.secret, SecretToSplit::Preimage(vec![0; 32]));
    assert_eq!(step.split.share_count, 2);
    let mut run = step.shares_made(vec![share(1, 10), share(2, 20)]);
    let mut place: u8 = 0;
    while let Some(next) = run.next().ok().unwrap() {
        assert_eq!(next.public_key, key(50 + place).serialize_uncompressed());
        assert_eq!(next.share.secret_share, scalar(10 * (place + 1)).to_vec());
        run = run.encrypted(Ok(vec![place])).ok().unwrap();
        place += 1;
    }
    let prepared = run.finish();
    assert_eq!(prepared.operator_preimage_packages.len(), 2);
    assert_eq!(prepared.operator_preimage_packages[0].operator_identifier, recipient(0).identifier);

    let run = receive_with_preimage(request(), [0; 32]).shares_made(vec![share(2, 20)]);
    assert_eq!(
        run.next().err(),
        Some(SignerError::Generic("Share not found for operator 0".to_string()))
    );
    let run = receive_with_preimage(request(), [0; 32]).shares_made(vec![share(1, 20)]);
    assert_eq!(
        run.encrypted(Err("bad point".to_string())).err(),
        Some(SignerError::Generic("ECIES encryption failed: bad point".to_string()))
    );
}

#[test]
fn fresh_preimages_are_hashed() {
    let request = || PrepareLightningReceiveRequest { operator_recipients: Vec::new(), threshold: 1 };
    let first = adapter().prepare_lightning_receive(request());
    let second = adapter().prepare_lightning_receive(request());
    let preimage = match &first.split.secret {
        SecretToSplit::Preimage(preimage) => preimage.clone(),
        other => panic!("expected a preimage, got {:?}", other),
    };
    assert_eq!(preimage.len(), 32);
    let digest: bitcoin::hashes::sha256::Hash = bitcoin::hashes::Hash::hash(&preimage);
    assert_eq!(first.payment_hash, bitcoin::hashes::Hash::to_byte_array(digest));
    assert_ne!(first.payment_hash, second.payment_hash);
}

fn commitment(secret: u8) -> Vec<u8> {
    key(secret).serialize()
}

fn commitments(secret: u8) -> FrostSigningCommitmentsWithNonces {
    FrostSigningCommitmentsWithNonces {
        commitments: SigningCommitments {
            hiding: commitment(secret),
            binding: commitment(secret + 1),
        },
        nonces_ciphertext: vec![secret],
    }
}

fn job(index: u32) -> FrostJob {
    FrostJob {
        derivation: FrostDerivation::StaticDeposit { index },
        sighash: [index as u8; 32],
        verifying_key: key(33),
        operator_commitments: ByOperator::new().inserted(OperatorCommitments {
            identifier: recipient(0).identifier,
            commitments: SigningCommitments { hiding: vec![1], binding: vec![2] },
        }),
        adaptor_public_key: Some(key(34)),
    }
}

#[test]
fn each_operator_has_one_item() {
    let share = |number: u8, value: u8| OperatorShare {
        identifier: Identifier { bytes: scalar(number) },
        share: vec![value],
    };
    let list = ByOperator::new()
        .inserted(share(7, 1))
        .inserted(share(3, 2))
        .inserted(share(9, 3))
        .inserted(share(7, 4));
    assert_eq!(list.items(), &vec![share(3, 2), share(7, 4), share(9, 3)]);
    let other = ByOperator::new()
        .inserted(share(9, 3))
        .inserted(share(7, 4))
        .inserted(share(3, 2));
    assert_eq!(list.clone(), other);
}

#[test]
fn prepared_nonces_are_stored_and_read_back() {
    let stored = encode_prepared_nonce(commitments(20)).unwrap();
    assert_eq!(stored.hiding_commitment, commitment(20));
    assert_eq!(stored.binding_commitment, commitment(21));
    assert_eq!(stored.nonces_ciphertext, vec![20]);
    assert_eq!(decode_prepared_nonce(stored), Ok(commitments(20)));
    let garbled = PreparedFrostNonce {
        hiding_commitment: vec![9; 33],
        binding_commitment: commitment(21),
        nonces_ciphertext: Vec::new(),
    };
    assert!(matches!(decode_prepared_nonce(garbled), Err(SignerError::SerializationError(_))));
    let mut batch = adapter().prepare_frost_nonces(2);
    let mut secret = 20;
    while batch.needs_more() {
        batch = batch.commitments_made(commitments(secret)).ok().unwrap();
        secret += 2;
    }
    assert_eq!(batch.prepared.len(), 2);
    assert_eq!(batch.prepared[1].hiding_commitment, commitment(22));
}

#[test]
fn jobs_are_signed_with_the_nonces_at_their_places() {
    let stored = |secret: u8| encode_prepared_nonce(commitments(secret)).unwrap();
    assert_eq!(
        adapter().sign_frost_with_nonces(vec![job(0), job(1)], vec![stored(20)]).err(),
        Some(SignerError::Generic("received 2 FROST jobs and 1 prepared nonces".to_string()))
    );
    let mut batch = adapter()
        .sign_frost_with_nonces(vec![job(0), job(1)], vec![stored(20), stored(22)])
        .ok()
        .unwrap();
    let mut number: u8 = 0;
    let results = loop {
        match batch.next().ok().unwrap() {
            FrostStep::Done(results) => break results,
            FrostStep::NonceNeeded(_) => panic!("the nonces are prepared"),
            FrostStep::SecretNeeded(step) => {
                assert_eq!(
                    step.derivation(),
                    FrostDerivation::StaticDeposit { index: number as u32 }
                );
                let secret = SecretSource::Encrypted(vec![number]);
                let step = step.secret_found(secret.clone());
                let step = step.public_key_found(key(35));
                assert_eq!(step.request.message, [number; 32]);
                assert_eq!(step.request.public_key, key(35));
                assert_eq!(step.request.private_key, secret);
                assert_eq!(step.request.verifying_key, key(33));
                assert_eq!(step.request.self_nonce_commitment, commitments(20 + 2 * number));
                assert_eq!(step.request.statechain_commitments, job(0).operator_commitments);
                assert_eq!(step.request.adaptor_public_key, Some(key(34)));
                batch = step.share_made(vec![number, 5]);
                number += 1;
            }
        }
    };
    assert_eq!(results.len(), 2);
    assert_eq!(results[1].commitment, commitments(22));
    assert_eq!(results[1].signature_share, vec![1, 5]);

    let mut garbled = stored(20);
    garbled.binding_commitment = Vec::new();
    let batch = adapter().sign_frost_with_nonces(vec![job(0)], vec![garbled]).ok().unwrap();
    assert!(matches!(batch.next().err(), Some(SignerError::SerializationError(_))));
}

#[test]
fn jobs_without_prepared_nonces_get_fresh_ones() {
    let batch = adapter().sign_frost(vec![job(4)]);
    let step = match batch.next().ok().unwrap() {
        FrostStep::NonceNeeded(step) => step,
        _ => panic!("no nonce is prepared"),
    };
    let batch = step
        .commitments_made(commitments(20))
        .secret_found(SecretSource::Encrypted(vec![1]))
        .public_key_found(key(35))
        .share_made(vec![6]);
    let results = match batch.next().ok().unwrap() {
        FrostStep::Done(results) => results,
        _ => panic!("the job is signed"),
    };
    assert_eq!(
        results,
        vec![FrostShareResult { commitment: commitments(20), signature_share: vec![6] }]
    );
}

#[test]
fn identity_signatures_are_asked_under_the_identity_path() {
    let adapter = adapter();
    assert_eq!(adapter.get_identity_public_key(), Ok(identity()));
    let challenge = adapter.sign_authentication_challenge(&[1, 2]).unwrap();
    assert_eq!((challenge.path, challenge.message), (identity(), vec![1, 2]));
    let message = adapter.sign_message(&[3]).unwrap();
    assert_eq!((message.path, message.message), (identity(), vec![3]));
    let invoice =
        adapter.sign_spark_invoice(SignSparkInvoiceRequest { invoice_hash: vec![4] }).unwrap();
    assert_eq!((invoice.path, invoice.hash), (identity(), vec![4]));
    let token = adapter
        .prepare_token_transaction(PrepareTokenTransactionRequest { digest: vec![5] })
        .unwrap();
    assert_eq!((token.path, token.hash), (identity(), vec![5]));
    let spend = adapter.sign_leaf_refund_spend(&id("leaf"), &[6, 7]);
    assert_eq!(spend.derivation(), FrostDerivation::SigningLeaf { leaf_id: id("leaf") });
    let request = spend.secret_found(SecretSource::Encrypted(vec![8]));
    assert_eq!(request.secret, SecretSource::Encrypted(vec![8]));
    assert_eq!(request.hash, vec![6, 7]);
    assert_eq!(request.tweak, None);
}

fn deposit_path(index: u32) -> DerivationPath {
    DerivationPath { children: vec![HARDENED + 3, HARDENED + index] }
}

#[test]
fn a_static_deposit_is_handed_over() {
    let adapter = adapter();
    assert_eq!(adapter.get_static_deposit_public_key(5), Ok(deposit_path(5)));
    let request = |index: u32| PrepareStaticDepositRequest {
        index,
        ssp_public_key: key(44),
        frost_jobs: vec![job(1)],
    };
    let step = adapter.prepare_static_deposit(request(5)).ok().unwrap();
    assert_eq!(step.question.secret, SecretSource::Derived(deposit_path(5)));
    assert_eq!(step.question.receiver, key(44));
    let step = step.exported(vec![1, 2]);
    assert_eq!(step.frost_jobs, vec![job(1)]);
    let prepared = step.signed(Vec::new());
    assert_eq!(prepared.exported_secret, vec![1, 2]);
    let refused = adapter.prepare_static_deposit(request(HARDENED)).err().unwrap();
    assert_eq!(
        refused,
        SignerError::Generic(
            "failed to create child from 2147483648: \
             child number 2147483648 is invalid (not within [0, 2^31 - 1])"
                .to_string()
        )
    );
}

#[test]
fn a_static_deposit_refund_is_started_and_signed() {
    let adapter = adapter();
    let step = adapter
        .start_static_deposit_refund(StartStaticDepositRefundRequest {
            index: 6,
            user_statement: vec![9, 9],
        })
        .ok()
        .unwrap();
    assert_eq!(step.path, deposit_path(6));
    let step = step.public_key_found(key(45)).commitments_made(commitments(20)).ok().unwrap();
    assert_eq!(step.signing.path, identity());
    assert_eq!(step.signing.message, vec![9, 9]);
    let started = step.signature_made(EcdsaSignature { compact: [3; 64] });
    assert_eq!(started.signing_public_key, key(45));
    assert_eq!(started.nonce_commitment, commitments(20));

    let operator = recipient(0).identifier;
    let step = adapter
        .sign_static_deposit_refund(SignStaticDepositRefundRequest {
            index: 6,
            sighash: [8; 32],
            verifying_key: key(46),
            nonce_commitment: started.nonce_commitment,
            statechain_commitments: job(0).operator_commitments,
            statechain_signatures: ByOperator::new()
                .inserted(OperatorShare { identifier: operator, share: vec![1] }),
            statechain_public_keys: ByOperator::new()
                .inserted(OperatorKey { identifier: operator, public_key: key(47) }),
        })
        .ok()
        .unwrap();
    assert_eq!(step.path, deposit_path(6));
    let step = step.public_key_found(key(45));
    assert_eq!(step.signing.private_key, SecretSource::Derived(deposit_path(6)));
    assert_eq!(step.signing.public_key, key(46));
    assert_eq!(step.signing.verifying_key, key(46));
    assert_eq!(step.signing.self_nonce_commitment, commitments(20));
    assert_eq!(step.signing.adaptor_public_key, None);
    let aggregation = step.share_made(vec![2, 2]);
    assert_eq!(aggregation.message, [8; 32]);
    assert_eq!(aggregation.public_key, key(45));
    assert_eq!(aggregation.verifying_key, key(46));
    assert_eq!(aggregation.self_commitment, commitments(20).commitments);
    assert_eq!(aggregation.self_signature, vec![2, 2]);
    assert_eq!(aggregation.statechain_commitments, job(0).operator_commitments);
    assert_eq!(aggregation.statechain_signatures.items()[0].share, vec![1]);
    assert_eq!(aggregation.statechain_public_keys.items()[0].public_key, key(47));
}

#[test]
fn a_static_deposit_is_claimed() {
    let step = adapter()
        .prepare_static_deposit_claim(PrepareStaticDepositClaimRequest {
            index: 7,
            user_statement: vec![1],
        })
        .ok()
        .unwrap();
    assert_eq!(step.path, deposit_path(7));
    let step = step.secret_key_found(vec![5; 32]).ok().unwrap();
    assert_eq!(step.signing.path, identity());
    assert_eq!(step.signing.message, vec![1]);
    let prepared = step.signature_made(EcdsaSignature { compact: [4; 64] });
    assert_eq!(prepared.deposit_secret_key, vec![5; 32]);
    assert_eq!(prepared.user_signature, EcdsaSignature { compact: [4; 64] });
}

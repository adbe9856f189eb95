//! Derivation paths of the wallet's keys.

use vstd::prelude::*;

use crate::error::{SignerError, SignerErrorView};
use crate::text::{decimal, decimal_digits, join4};
use crate::tree::TreeNodeId;

verus! {

/// One past the greatest index of a hardened child, and the mark that a hardened child carries.
pub const HARDENED: u32 = 0x8000_0000;

/// The purpose of the wallet identity key.
pub const IDENTITY_PURPOSE: u32 = 0;

/// The purpose of the keys that sign for leaves.
pub const SIGNING_PURPOSE: u32 = 1;

/// The purpose of the static deposit keys.
pub const STATIC_DEPOSIT_PURPOSE: u32 = 3;

/// A path of child numbers below the account master, as BIP 32 numbers them: a hardened child is
/// its index plus `HARDENED`.
#[derive(Debug, PartialEq, Eq)]
pub struct DerivationPath {
    pub children: Vec<u32>,
}

impl View for DerivationPath {
    type V = Seq<u32>;

    open spec fn view(&self) -> Seq<u32> {
        self.children@
    }
}

impl Clone for DerivationPath {
    fn clone(&self) -> (copy: Self)
        ensures
            copy@ == self@,
    {
        DerivationPath { children: self.children.clone() }
    }
}

/// The SHA-256 digest of a byte string.
pub uninterp spec fn sha256_digest(data: Seq<u8>) -> Seq<u8>;

/// `bitcoin::hashes::sha256::Hash::hash`, named by `sha256_digest`: 32 bytes.
#[verifier::external_body]
pub(crate) fn sha256(data: &[u8]) -> (digest: [u8; 32])
    ensures
        digest@ == sha256_digest(data@),
{
    let digest: bitcoin::hashes::sha256::Hash = bitcoin::hashes::Hash::hash(data);
    bitcoin::hashes::Hash::to_byte_array(digest)
}

/// What BIP 32 says of an index that no hardened child has.
pub open spec fn hardened_fault(index: u32) -> Seq<char> {
    "child number "@ + decimal_digits(index as nat) + " is invalid (not within [0, 2^31 - 1])"@
}

/// `bitcoin::bip32::ChildNumber::from_hardened_idx`, as a child number or as the error's message:
/// it accepts the indexes below `HARDENED`, and marks them.
#[verifier::external_body]
fn hardened_child(index: u32) -> (child: Result<u32, String>)
    ensures
        match child {
            Ok(number) => index < HARDENED && number == index + HARDENED,
            Err(message) => index >= HARDENED && message@ == hardened_fault(index),
        },
{
    let child = bitcoin::bip32::ChildNumber::from_hardened_idx(index);
    child.map(u32::from).map_err(|e| e.to_string())
}

/// The path of one hardened child.
pub open spec fn hardened_path(purpose: u32) -> Seq<u32> {
    seq![(purpose + HARDENED) as u32]
}

/// The index that a digest gives: its first four bytes, the first of them the most significant,
/// reduced below `HARDENED`.
pub open spec fn digest_index(digest: Seq<u8>) -> u32 {
    ((digest[0] * 0x100_0000 + digest[1] * 0x1_0000 + digest[2] * 0x100 + digest[3])
        % HARDENED as int) as u32
}

/// The index of a leaf's key: that of the digest of its id.
pub open spec fn leaf_index(id: Seq<char>) -> u32 {
    digest_index(sha256_digest(vstd::utf8::encode_utf8(id)))
}

/// The path of a leaf's signing key.
pub open spec fn leaf_path(id: Seq<char>) -> Seq<u32> {
    hardened_path(SIGNING_PURPOSE).push((leaf_index(id) + HARDENED) as u32)
}

/// The path of a static deposit key, or the refusal of an index that no hardened child has.
pub open spec fn deposit_path(index: u32) -> Result<Seq<u32>, SignerErrorView> {
    if index < HARDENED {
        Ok(hardened_path(STATIC_DEPOSIT_PURPOSE).push((index + HARDENED) as u32))
    } else {
        Err(
            SignerErrorView::Generic(
                "failed to create child from "@ + decimal_digits(index as nat) + ": "@
                    + hardened_fault(index),
            ),
        )
    }
}

/// The index that a digest gives: its first four bytes modulo 2^31.
pub fn leaf_child_index(digest: &[u8; 32]) -> (index: u32)
    ensures
        index == digest_index(digest@),
        index < HARDENED,
        index < 0x8000_0000,
        (((digest@[0] * 256 + digest@[1]) * 256 + digest@[2]) * 256 + digest@[3] - index)
            % 0x8000_0000 == 0,
{
    let number: u32 = digest[0] as u32 * 0x100_0000 + digest[1] as u32 * 0x1_0000
        + digest[2] as u32 * 0x100 + digest[3] as u32;
    number % HARDENED
}

/// Derivation path for a leaf's signing key: the signing purpose followed by a hardened child
/// derived from the node id (SHA-256 of the id, first four bytes modulo 2^31).
pub fn signing_path(node_id: &TreeNodeId) -> (path: Result<DerivationPath, SignerError>)
    ensures
        crate::model::view_result(path) == Ok::<Seq<u32>, SignerErrorView>(leaf_path(node_id@)),
        ({
            let digest = sha256_digest(vstd::utf8::encode_utf8(node_id@));
            let number = ((digest[0] * 256 + digest[1]) * 256 + digest[2]) * 256 + digest[3];
            path matches Ok(found) && found.children@ == seq![
                0x8000_0001u32,
                (0x8000_0000 + number % 0x8000_0000) as u32,
            ]
        }),
{
    let digest: [u8; 32] = sha256(node_id.id.as_str().as_bytes());
    let index: u32 = leaf_child_index(&digest);
    let mut children: Vec<u32> = Vec::new();
    match hardened_child(SIGNING_PURPOSE) {
        Ok(child) => children.push(child),
        Err(_) => return Err(SignerError::InvalidHash),
    }
    match hardened_child(index) {
        Ok(child) => children.push(child),
        Err(_) => return Err(SignerError::InvalidHash),
    }
    assert(children@ =~= leaf_path(node_id@));
    Ok(DerivationPath { children })
}

/// Derivation path for a static-deposit key at `index`: the static-deposit purpose followed by
/// the index as a hardened child.
pub fn static_deposit_path(index: u32) -> (path: Result<DerivationPath, SignerError>)
    ensures
        crate::model::view_result(path) == deposit_path(index),
        path is Ok <==> index < 0x8000_0000,
        path matches Ok(found) ==> found.children@ == seq![
            0x8000_0003u32,
            (0x8000_0000 + index) as u32,
        ],
{
    let mut children: Vec<u32> = Vec::new();
    match hardened_child(STATIC_DEPOSIT_PURPOSE) {
        Ok(child) => children.push(child),
        Err(fault) => {
            return Err(
                SignerError::Generic(
                    crate::text::join("invalid static-deposit purpose: ", fault.as_str()),
                ),
            );
        },
    }
    match hardened_child(index) {
        Ok(child) => children.push(child),
        Err(fault) => {
            let number = decimal(index as u64);
            return Err(
                SignerError::Generic(
                    join4("failed to create child from ", number.as_str(), ": ", fault.as_str()),
                ),
            );
        },
    }
    assert(children@ =~= deposit_path(index)->Ok_0);
    Ok(DerivationPath { children })
}

/// Derivation path of the wallet identity key: the first hardened child of the account master.
/// Identity signing and authentication use this key.
pub fn identity_path() -> (path: Result<DerivationPath, SignerError>)
    ensures
        crate::model::view_result(path) == Ok::<Seq<u32>, SignerErrorView>(
            hardened_path(IDENTITY_PURPOSE),
        ),
        path matches Ok(found) && found.children@ == seq![0x8000_0000u32],
{
    let mut children: Vec<u32> = Vec::new();
    match hardened_child(IDENTITY_PURPOSE) {
        Ok(child) => children.push(child),
        Err(fault) => {
            return Err(
                SignerError::Generic(
                    crate::text::join("invalid identity purpose: ", fault.as_str()),
                ),
            );
        },
    }
    assert(children@ =~= hardened_path(IDENTITY_PURPOSE));
    Ok(DerivationPath { children })
}

/// Every key of the wallet has a hardened path, and no leaf key, static deposit key or identity
/// key shares its path with one of another purpose.
pub proof fn paths_keep_purposes_apart(id: Seq<char>, index: u32)
    requires
        index < HARDENED,
    ensures
        leaf_path(id) != deposit_path(index)->Ok_0,
        leaf_path(id) != hardened_path(IDENTITY_PURPOSE),
        deposit_path(index)->Ok_0 != hardened_path(IDENTITY_PURPOSE),
        forall|i: int| 0 <= i < leaf_path(id).len() ==> #[trigger] leaf_path(id)[i] >= HARDENED,
        forall|i: int|
            0 <= i < deposit_path(index)->Ok_0.len() ==> #[trigger] deposit_path(index)->Ok_0[i]
                >= HARDENED,
{
    assert(leaf_path(id)[0] == SIGNING_PURPOSE + HARDENED);
    assert(deposit_path(index)->Ok_0[0] == STATIC_DEPOSIT_PURPOSE + HARDENED);
}

/// Two static deposit keys of different indexes have different paths.
pub proof fn deposit_paths_differ(first: u32, second: u32)
    requires
        first < HARDENED,
        second < HARDENED,
        first != second,
    ensures
        deposit_path(first)->Ok_0 != deposit_path(second)->Ok_0,
{
    assert(deposit_path(first)->Ok_0[1] == first + HARDENED);
    assert(deposit_path(second)->Ok_0[1] == second + HARDENED);
}

/// The child index of a leaf is the number that the first four bytes of its digest write, the first
/// of them the most significant, modulo 2^31. So a number below 2^31 is the index itself, and the
/// highest bit of the first byte makes no difference.
pub proof fn leaf_index_is_the_digest_number(digest: Seq<u8>)
    requires
        digest.len() >= 4,
    ensures
        ({
            let number = ((digest[0] * 256 + digest[1]) * 256 + digest[2]) * 256 + digest[3];
            &&& 0 <= digest_index(digest) < 0x8000_0000
            &&& (number - digest_index(digest)) % 0x8000_0000 == 0
            &&& number < 0x8000_0000 ==> digest_index(digest) == number
            &&& number >= 0x8000_0000 ==> digest_index(digest) == number - 0x8000_0000
        }),
{
}

/// Two leaves have the same path exactly where the first four bytes of their digests agree in the
/// low 31 bits.
pub proof fn leaf_paths_follow_digests(first: Seq<char>, second: Seq<char>)
    requires
        sha256_digest(vstd::utf8::encode_utf8(first)).len() >= 4,
        sha256_digest(vstd::utf8::encode_utf8(second)).len() >= 4,
    ensures
        ({
            let a = sha256_digest(vstd::utf8::encode_utf8(first));
            let b = sha256_digest(vstd::utf8::encode_utf8(second));
            leaf_path(first) == leaf_path(second) <==> a[0] as int % 128 == b[0] as int % 128
                && a[1] == b[1] && a[2] == b[2] && a[3] == b[3]
        }),
{
    let a = sha256_digest(vstd::utf8::encode_utf8(first));
    let b = sha256_digest(vstd::utf8::encode_utf8(second));
    leaf_index_is_the_digest_number(a);
    leaf_index_is_the_digest_number(b);
    assert(leaf_path(first)[1] == leaf_index(first) + HARDENED);
    assert(leaf_path(second)[1] == leaf_index(second) + HARDENED);
    assert(a[0] as int % 128 == if a[0] < 128 { a[0] as int } else { a[0] - 128 });
    assert(b[0] as int % 128 == if b[0] < 128 { b[0] as int } else { b[0] - 128 });
    if leaf_index(first) == leaf_index(second) {
        assert(leaf_path(first) =~= leaf_path(second));
    }
}

/// Every path is hardened all along: the identity key is the child 0', the key of a leaf is the
/// child of 1' at the leaf's index, and a static deposit key is the child of 3' at its own index.
/// Only indexes below 2^31 have a static deposit key.
pub proof fn paths_are_hardened(id: Seq<char>, index: u32)
    requires
        sha256_digest(vstd::utf8::encode_utf8(id)).len() >= 4,
    ensures
        hardened_path(IDENTITY_PURPOSE) == seq![0x8000_0000u32],
        ({
            let digest = sha256_digest(vstd::utf8::encode_utf8(id));
            let number = ((digest[0] * 256 + digest[1]) * 256 + digest[2]) * 256 + digest[3];
            leaf_path(id) == seq![
                0x8000_0001u32,
                (0x8000_0000 + number % 0x8000_0000) as u32,
            ]
        }),
        deposit_path(index) is Ok <==> index < 0x8000_0000,
        index < 0x8000_0000 ==> deposit_path(index) == Ok::<Seq<u32>, SignerErrorView>(
            seq![0x8000_0003u32, (0x8000_0000 + index) as u32],
        ),
{
    leaf_index_is_the_digest_number(sha256_digest(vstd::utf8::encode_utf8(id)));
    assert(hardened_path(IDENTITY_PURPOSE) =~= seq![0x8000_0000u32]);
    assert(leaf_path(id).len() == 2);
    assert(leaf_path(id) =~= seq![leaf_path(id)[0], leaf_path(id)[1]]);
    if index < 0x8000_0000 {
        assert(deposit_path(index)->Ok_0 =~= seq![0x8000_0003u32, (0x8000_0000 + index) as u32]);
    }
}

} // verus!

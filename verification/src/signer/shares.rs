//! Shares of split secrets, and which operator gets which.

use vstd::arithmetic::power::pow;
use vstd::prelude::*;

use crate::byte_map::{map_holds_the_last_entry, map_of, ByteMap};
use crate::error::{SignerError, SignerErrorView};
use crate::keys::{secret_public_key, Identifier, PublicKey};
use crate::model::{
    collected, collected_is_all_or_the_first_error, copy_byte_strings, lemma_collected_error,
    lemma_collected_step, lemma_collected_values, same_bytes, view_result, views,
};
use crate::text::{decimal, decimal_digits, hex_round_trip, hex_text, join};

verus! {

/// The number whose bytes are given, the most significant first.
pub open spec fn be_value(bytes: Seq<u8>) -> nat
    decreases bytes.len(),
{
    if bytes.len() == 0 {
        0
    } else {
        be_value(bytes.drop_last()) * 256 + bytes.last() as nat
    }
}

/// Byte strings of one length have the same value only if they are equal.
proof fn lemma_be_value_injective(left: Seq<u8>, right: Seq<u8>)
    requires
        left.len() == right.len(),
        be_value(left) == be_value(right),
    ensures
        left == right,
    decreases left.len(),
{
    if left.len() > 0 {
        lemma_be_value_injective(left.drop_last(), right.drop_last());
        assert(left =~= left.drop_last().push(left.last()));
        assert(right =~= right.drop_last().push(right.last()));
    } else {
        assert(left =~= right);
    }
}

/// `k256::Scalar::from` a `u64`, and `to_bytes` of the scalar: its 32 bytes, the most significant
/// first. Every `u64` is below the order of the group, so the value is the number itself.
#[verifier::external_body]
fn scalar_bytes(number: u64) -> (bytes: [u8; 32])
    ensures
        be_value(bytes@) == number,
{
    k256::Scalar::from(number).to_bytes().into()
}

/// A share of a split secret: the place at which the secret's polynomial was evaluated and the
/// value there, both as 32 bytes with the most significant first, and the proofs that come with
/// it, as encoded points.
#[derive(Debug, PartialEq, Eq)]
pub struct VerifiableSecretShare {
    pub index: [u8; 32],
    pub share: [u8; 32],
    pub proofs: Vec<Vec<u8>>,
}

/// The view of a `VerifiableSecretShare`.
pub struct VerifiableSecretShareView {
    pub index: Seq<u8>,
    pub share: Seq<u8>,
    pub proofs: Seq<Seq<u8>>,
}

impl View for VerifiableSecretShare {
    type V = VerifiableSecretShareView;

    open spec fn view(&self) -> VerifiableSecretShareView {
        VerifiableSecretShareView {
            index: self.index@,
            share: self.share@,
            proofs: views(self.proofs@),
        }
    }
}

/// A share as it is sent to an operator.
#[derive(Debug, PartialEq, Eq)]
pub struct SecretShare {
    pub secret_share: Vec<u8>,
    pub proofs: Vec<Vec<u8>>,
}

/// The view of a `SecretShare`.
pub struct SecretShareView {
    pub secret_share: Seq<u8>,
    pub proofs: Seq<Seq<u8>>,
}

impl View for SecretShare {
    type V = SecretShareView;

    open spec fn view(&self) -> SecretShareView {
        SecretShareView { secret_share: self.secret_share@, proofs: views(self.proofs@) }
    }
}

impl Clone for SecretShare {
    fn clone(&self) -> (copy: Self)
        ensures
            copy@ == self@,
    {
        SecretShare {
            secret_share: crate::model::copy_bytes(&self.secret_share),
            proofs: copy_byte_strings(&self.proofs),
        }
    }
}

/// An operator that gets a share.
#[derive(Debug, PartialEq, Eq, Clone, Copy)]
pub struct OperatorRecipient {
    pub id: usize,
    pub identifier: Identifier,
    pub public_key: PublicKey,
}

/// The view of an `OperatorRecipient`.
pub struct OperatorRecipientView {
    pub id: nat,
    pub identifier: Seq<u8>,
    pub public_key: Seq<u8>,
}

impl View for OperatorRecipient {
    type V = OperatorRecipientView;

    open spec fn view(&self) -> OperatorRecipientView {
        OperatorRecipientView {
            id: self.id as nat,
            identifier: self.identifier@,
            public_key: self.public_key@,
        }
    }
}

/// Whether each operator has a share index that a machine word can hold.
pub open spec fn ids_in_range(recipients: Seq<OperatorRecipient>) -> bool {
    forall|i: int| 0 <= i < recipients.len() ==> (#[trigger] recipients[i]).id < usize::MAX
}

/// What is sent to an operator as its share.
pub open spec fn sent_share(share: VerifiableSecretShareView) -> SecretShareView {
    SecretShareView { secret_share: share.share, proofs: share.proofs }
}

/// The share of an operator: the first whose index is the operator's id plus one.
pub open spec fn share_of(
    shares: Seq<VerifiableSecretShareView>,
    operator_id: nat,
) -> Option<VerifiableSecretShareView>
    decreases shares.len(),
{
    if shares.len() == 0 {
        None
    } else if be_value(shares.first().index) == operator_id + 1 {
        Some(shares.first())
    } else {
        share_of(shares.drop_first(), operator_id)
    }
}

/// The refusal of shares among which an operator has none.
pub open spec fn share_not_found(operator_id: nat) -> SignerErrorView {
    SignerErrorView::Generic("Share not found for operator "@ + decimal_digits(operator_id))
}

/// The share of an operator, or the refusal of shares among which it has none.
pub open spec fn owed_share(
    shares: Seq<VerifiableSecretShareView>,
    operator_id: nat,
) -> Result<VerifiableSecretShareView, SignerErrorView> {
    match share_of(shares, operator_id) {
        Some(share) => Ok(share),
        None => Err(share_not_found(operator_id)),
    }
}

/// The entry of an operator among the public key tweaks: the public key of its share, by its
/// identifier in hexadecimal.
pub open spec fn tweak_entry(
    recipient: OperatorRecipientView,
    shares: Seq<VerifiableSecretShareView>,
) -> Result<(Seq<char>, Seq<u8>), SignerErrorView> {
    match owed_share(shares, recipient.id) {
        Ok(share) => match secret_public_key(share.share) {
            Some(key) => Ok((hex_text(recipient.identifier), key)),
            None => Err(SignerErrorView::Generic("Invalid secret share"@)),
        },
        Err(error) => Err(error),
    }
}

/// The entries of all operators among the public key tweaks.
pub open spec fn tweak_entries(
    recipients: Seq<OperatorRecipientView>,
    shares: Seq<VerifiableSecretShareView>,
) -> Seq<Result<(Seq<char>, Seq<u8>), SignerErrorView>> {
    Seq::new(recipients.len(), |i: int| tweak_entry(recipients[i], shares))
}

/// The public key tweaks of all operators.
pub open spec fn pubkey_tweaks(
    recipients: Seq<OperatorRecipientView>,
    shares: Seq<VerifiableSecretShareView>,
) -> Result<Map<Seq<char>, Seq<u8>>, SignerErrorView> {
    match collected(tweak_entries(recipients, shares)) {
        Ok(entries) => Ok(map_of(entries)),
        Err(error) => Err(error),
    }
}

/// Finds the share that belongs to operator `operator_id`: its index is `operator_id + 1`.
pub fn find_share(shares: &Vec<VerifiableSecretShare>, operator_id: usize) -> (share: Option<
    &VerifiableSecretShare,
>)
    requires
        operator_id < usize::MAX,
    ensures
        match share {
            Some(found) => share_of(views(shares@), operator_id as nat) == Some(found@),
            None => share_of(views(shares@), operator_id as nat) is None,
        },
        match share {
            Some(found) => be_value(found.index@) == operator_id + 1 && exists|i: int|
                {
                    &&& 0 <= i < shares@.len()
                    &&& #[trigger] shares@[i] == *found
                    &&& forall|j: int|
                        0 <= j < i ==> be_value((#[trigger] shares@[j]).index@) != operator_id + 1
                },
            None => forall|i: int|
                0 <= i < shares@.len() ==> be_value((#[trigger] shares@[i]).index@) != operator_id
                    + 1,
        },
{
    let target: [u8; 32] = scalar_bytes((operator_id + 1) as u64);
    let ghost all = views(shares@);
    let mut i: usize = 0;
    assert(all.skip(0) =~= all);
    while i < shares.len()
        invariant
            i <= shares@.len(),
            all == views(shares@),
            be_value(target@) == operator_id + 1,
            forall|j: int|
                0 <= j < i ==> be_value((#[trigger] shares@[j]).index@) != operator_id + 1,
            share_of(all, operator_id as nat) == share_of(all.skip(i as int), operator_id as nat),
        decreases shares@.len() - i,
    {
        assert(all.skip(i as int).first() == shares@[i as int]@);
        assert(all.skip(i as int).drop_first() =~= all.skip(i + 1));
        if same_bytes(shares[i].index.as_slice(), target.as_slice()) {
            return Some(&shares[i]);
        }
        proof {
            if be_value(shares@[i as int].index@) == operator_id + 1 {
                lemma_be_value_injective(shares@[i as int].index@, target@);
            }
        }
        i = i + 1;
    }
    None
}

/// The share of an operator, as `find_share` finds it, or an error that names the operator.
pub fn require_share(shares: &Vec<VerifiableSecretShare>, operator_id: usize) -> (result: Result<
    &VerifiableSecretShare,
    SignerError,
>)
    requires
        operator_id < usize::MAX,
    ensures
        match result {
            Ok(found) => owed_share(views(shares@), operator_id as nat) == Ok::<
                VerifiableSecretShareView,
                SignerErrorView,
            >(found@),
            Err(error) => owed_share(views(shares@), operator_id as nat) == Err::<
                VerifiableSecretShareView,
                SignerErrorView,
            >(error@),
        },
        match result {
            Ok(found) => be_value(found.index@) == operator_id + 1 && shares@.contains(*found),
            Err(error) => {
                &&& error@ == SignerErrorView::Generic(
                    "Share not found for operator "@ + decimal_digits(operator_id as nat),
                )
                &&& forall|i: int|
                    0 <= i < shares@.len() ==> be_value((#[trigger] shares@[i]).index@)
                        != operator_id + 1
            },
        },
{
    match find_share(shares, operator_id) {
        Some(share) => Ok(share),
        None => {
            let id = decimal(operator_id as u64);
            Err(SignerError::Generic(join("Share not found for operator ", id.as_str())))
        },
    }
}

/// Computes the public-key tweak of every operator from the shares of a split secret.
pub fn pubkey_shares_tweak(
    recipients: &Vec<OperatorRecipient>,
    shares: &Vec<VerifiableSecretShare>,
) -> (result: Result<ByteMap, SignerError>)
    requires
        ids_in_range(recipients@),
    ensures
        view_result(result) == pubkey_tweaks(views(recipients@), views(shares@)),
        result is Ok <==> forall|k: int|
            0 <= k < recipients@.len() ==> {
                let share = share_of(views(shares@), (#[trigger] recipients@[k]).id as nat);
                share is Some && secret_public_key(share->Some_0.share) is Some
            },
        result matches Ok(tweaks) ==> forall|k: int|
            0 <= k < recipients@.len() && (forall|j: int|
                k < j < recipients@.len() ==> (#[trigger] recipients@[j]).identifier@
                    != recipients@[k].identifier@) ==> tweaks@.contains_pair(
                hex_text((#[trigger] recipients@[k]).identifier@),
                secret_public_key(
                    share_of(views(shares@), recipients@[k].id as nat)->Some_0.share,
                )->Some_0,
            ),
        result matches Ok(tweaks) ==> forall|name: Seq<char>| #[trigger]
            tweaks@.contains_key(name) ==> exists|k: int|
                0 <= k < recipients@.len() && hex_text((#[trigger] recipients@[k]).identifier@)
                    == name,
{
    proof {
        lemma_tweaks_of_recipients(recipients@, shares@);
    }
    let ghost entries = tweak_entries(views(recipients@), views(shares@));
    let mut map = ByteMap::new();
    let mut i: usize = 0;
    assert(entries.take(0) =~= Seq::empty());
    #[verifier::loop_isolation(false)]
    while i < recipients.len()
        invariant
            i <= recipients@.len(),
            collected(entries.take(i as int)) is Ok,
            map@ == map_of(collected(entries.take(i as int))->Ok_0),
        decreases recipients@.len() - i,
    {
        let recipient = &recipients[i];
        assert(entries[i as int] == tweak_entry(recipient@, views(shares@)));
        proof {
            lemma_collected_step(entries, i as int);
        }
        let share = match require_share(shares, recipient.id) {
            Ok(share) => share,
            Err(error) => {
                proof {
                    lemma_collected_error(entries, i + 1);
                }
                return Err(error);
            },
        };
        let key = match PublicKey::from_secret(share.share.as_slice()) {
            Some(key) => key,
            None => {
                proof {
                    lemma_collected_error(entries, i + 1);
                }
                return Err(SignerError::Generic("Invalid secret share".to_string()));
            },
        };
        let ghost before = collected(entries.take(i as int))->Ok_0;
        let ghost entry = entries[i as int]->Ok_0;
        map = map.inserted(recipient.identifier.to_hex(), key.serialize());
        assert(before.push(entry).drop_last() =~= before);
        i = i + 1;
    }
    assert(entries.take(i as int) =~= entries);
    Ok(map)
}

/// The share as it is sent.
pub fn proto_secret_share(share: &VerifiableSecretShare) -> (sent: SecretShare)
    ensures
        sent@ == sent_share(share@),
        sent.secret_share@ == share.share@,
        sent.proofs@.len() == share.proofs@.len(),
        forall|i: int|
            0 <= i < share.proofs@.len() ==> (#[trigger] sent.proofs@[i])@ == share.proofs@[i]@,
{
    let secret_share = vstd::slice::slice_to_vec(share.share.as_slice());
    assert(secret_share@ =~= share.share@);
    SecretShare { secret_share, proofs: copy_byte_strings(&share.proofs) }
}

/// An operator is sent all of its share: the bytes of the value, and every proof at its place. So
/// what is sent tells apart shares that differ in their value or in any proof.
pub proof fn shares_are_sent_whole(
    share: VerifiableSecretShareView,
    other: VerifiableSecretShareView,
)
    ensures
        sent_share(share).secret_share == share.share,
        sent_share(share).proofs.len() == share.proofs.len(),
        forall|i: int|
            0 <= i < share.proofs.len() ==> #[trigger] sent_share(share).proofs[i]
                == share.proofs[i],
        sent_share(share) == sent_share(other) <==> share.share == other.share && share.proofs
            == other.proofs,
{
}

/// The share of an operator is one whose index is the operator's id plus one, and the first of
/// them. There is none exactly where no share has that index.
pub proof fn share_is_the_first_of_its_index(
    shares: Seq<VerifiableSecretShareView>,
    operator_id: nat,
)
    ensures
        match share_of(shares, operator_id) {
            Some(share) => be_value(share.index) == operator_id + 1 && exists|i: int|
                {
                    &&& 0 <= i < shares.len()
                    &&& #[trigger] shares[i] == share
                    &&& forall|j: int|
                        0 <= j < i ==> be_value((#[trigger] shares[j]).index) != operator_id + 1
                },
            None => forall|i: int|
                0 <= i < shares.len() ==> be_value((#[trigger] shares[i]).index) != operator_id + 1,
        },
    decreases shares.len(),
{
    if shares.len() > 0 {
        if be_value(shares.first().index) == operator_id + 1 {
            assert(shares[0] == shares.first());
        } else {
            let rest = shares.drop_first();
            share_is_the_first_of_its_index(rest, operator_id);
            match share_of(rest, operator_id) {
                Some(share) => {
                    let i = choose|i: int|
                        {
                            &&& 0 <= i < rest.len()
                            &&& #[trigger] rest[i] == share
                            &&& forall|j: int|
                                0 <= j < i ==> be_value((#[trigger] rest[j]).index) != operator_id
                                    + 1
                        };
                    assert(shares[i + 1] == share);
                    assert forall|j: int| 0 <= j < i + 1 implies be_value(
                        (#[trigger] shares[j]).index,
                    ) != operator_id + 1 by {
                        if j > 0 {
                            assert(rest[j - 1] == shares[j]);
                        }
                    }
                },
                None => {
                    assert forall|i: int| 0 <= i < shares.len() implies be_value(
                        (#[trigger] shares[i]).index,
                    ) != operator_id + 1 by {
                        if i > 0 {
                            assert(rest[i - 1] == shares[i]);
                        }
                    }
                },
            }
        }
    }
}

/// The value of a byte string in base 256: nothing is zero, a byte is itself, and bytes in front of
/// others count for what they are worth there.
pub proof fn byte_values_are_positional(front: Seq<u8>, back: Seq<u8>, byte: u8)
    ensures
        be_value(Seq::<u8>::empty()) == 0,
        be_value(seq![byte]) == byte,
        be_value(front + back) == be_value(front) * pow(256, back.len()) + be_value(back),
    decreases back.len(),
{
    assert(seq![byte].drop_last() =~= Seq::<u8>::empty());
    assert(be_value(Seq::<u8>::empty()) == 0);
    assert(be_value(seq![byte]) == be_value(seq![byte].drop_last()) * 256 + byte);
    if back.len() == 0 {
        assert(front + back =~= front);
        assert(pow(256, 0) == 1) by {
            reveal(pow);
        }
    } else {
        let shorter = back.drop_last();
        byte_values_are_positional(front, shorter, byte);
        assert((front + back).drop_last() =~= front + shorter);
        assert((front + back).last() == back.last());
        assert(pow(256, back.len()) == 256 * pow(256, shorter.len())) by {
            reveal(pow);
        }
        let weight = pow(256, shorter.len());
        assert((be_value(front) * weight + be_value(shorter)) * 256 == be_value(front) * (256
            * weight) + be_value(shorter) * 256) by (nonlinear_arith);
    }
}

/// The tweaks can be computed exactly where every operator has a share that is a secret key. They
/// hold, under the identifier of each operator in hexadecimal, the public key of that operator's
/// own share, and nothing under other names. Where operators share an identifier, the last counts.
pub proof fn tweaks_are_the_keys_of_the_shares(
    recipients: Seq<OperatorRecipientView>,
    shares: Seq<VerifiableSecretShareView>,
)
    ensures
        pubkey_tweaks(recipients, shares) is Ok <==> forall|k: int|
            0 <= k < recipients.len() ==> {
                let share = share_of(shares, (#[trigger] recipients[k]).id);
                share is Some && secret_public_key(share->Some_0.share) is Some
            },
        pubkey_tweaks(recipients, shares) matches Ok(tweaks) ==> {
            &&& forall|k: int|
                0 <= k < recipients.len() && (forall|j: int|
                    k < j < recipients.len() ==> (#[trigger] recipients[j]).identifier
                        != recipients[k].identifier) ==> tweaks.contains_pair(
                    hex_text((#[trigger] recipients[k]).identifier),
                    secret_public_key(share_of(shares, recipients[k].id)->Some_0.share)->Some_0,
                )
            &&& forall|name: Seq<char>| #[trigger]
                tweaks.contains_key(name) ==> exists|k: int|
                    0 <= k < recipients.len() && hex_text((#[trigger] recipients[k]).identifier)
                        == name
        },
{
    let items = tweak_entries(recipients, shares);
    collected_is_all_or_the_first_error(items);
    if collected(items) is Ok {
        let entries = collected(items)->Ok_0;
        let tweaks = map_of(entries);
        map_holds_the_last_entry(entries);
        assert forall|k: int| 0 <= k < recipients.len() implies {
            let share = share_of(shares, (#[trigger] recipients[k]).id);
            share is Some && secret_public_key(share->Some_0.share) is Some
        } by {
            assert(items[k] is Ok);
        }
        assert forall|k: int|
            0 <= k < recipients.len() && (forall|j: int|
                k < j < recipients.len() ==> (#[trigger] recipients[j]).identifier
                    != recipients[k].identifier) implies tweaks.contains_pair(
            hex_text((#[trigger] recipients[k]).identifier),
            secret_public_key(share_of(shares, recipients[k].id)->Some_0.share)->Some_0,
        ) by {
            assert(items[k] == Ok::<(Seq<char>, Seq<u8>), SignerErrorView>(entries[k]));
            assert forall|j: int| k < j < entries.len() implies (#[trigger] entries[j]).0
                != entries[k].0 by {
                assert(items[j] == Ok::<(Seq<char>, Seq<u8>), SignerErrorView>(entries[j]));
                assert(recipients[j].identifier != recipients[k].identifier);
                hex_round_trip(recipients[j].identifier);
                hex_round_trip(recipients[k].identifier);
            }
            assert(tweaks.contains_key(entries[k].0));
            assert(tweaks[entries[k].0] == entries[k].1);
        }
        assert forall|name: Seq<char>| #[trigger] tweaks.contains_key(name) implies exists|k: int|
            0 <= k < recipients.len() && hex_text((#[trigger] recipients[k]).identifier)
                == name by {
            let k = choose|k: int| 0 <= k < entries.len() && (#[trigger] entries[k]).0 == name;
            assert(items[k] == Ok::<(Seq<char>, Seq<u8>), SignerErrorView>(entries[k]));
            assert(hex_text(recipients[k].identifier) == name);
        }
    } else {
        let k = choose|k: int| 0 <= k < items.len() && !(#[trigger] items[k] is Ok);
        let recipient = recipients[k];
    }
}

proof fn lemma_tweaks_of_recipients(
    recipients: Seq<OperatorRecipient>,
    shares: Seq<VerifiableSecretShare>,
)
    ensures
        pubkey_tweaks(views(recipients), views(shares)) is Ok <==> forall|k: int|
            0 <= k < recipients.len() ==> {
                let share = share_of(views(shares), (#[trigger] recipients[k]).id as nat);
                share is Some && secret_public_key(share->Some_0.share) is Some
            },
        pubkey_tweaks(views(recipients), views(shares)) matches Ok(tweaks) ==> {
            &&& forall|k: int|
                0 <= k < recipients.len() && (forall|j: int|
                    k < j < recipients.len() ==> (#[trigger] recipients[j]).identifier@
                        != recipients[k].identifier@) ==> tweaks.contains_pair(
                    hex_text((#[trigger] recipients[k]).identifier@),
                    secret_public_key(
                        share_of(views(shares), recipients[k].id as nat)->Some_0.share,
                    )->Some_0,
                )
            &&& forall|name: Seq<char>| #[trigger]
                tweaks.contains_key(name) ==> exists|k: int|
                    0 <= k < recipients.len() && hex_text((#[trigger] recipients[k]).identifier@)
                        == name
        },
{
    let seen = views(recipients);
    tweaks_are_the_keys_of_the_shares(seen, views(shares));
    assert forall|k: int| 0 <= k < recipients.len() implies #[trigger] seen[k]
        == recipients[k]@ by {}
    if pubkey_tweaks(seen, views(shares)) is Ok {
        let tweaks = pubkey_tweaks(seen, views(shares))->Ok_0;
        assert forall|k: int| 0 <= k < recipients.len() implies {
            let share = share_of(views(shares), (#[trigger] recipients[k]).id as nat);
            share is Some && secret_public_key(share->Some_0.share) is Some
        } by {
            assert(seen[k] == recipients[k]@);
        }
        assert forall|k: int|
            0 <= k < recipients.len() && (forall|j: int|
                k < j < recipients.len() ==> (#[trigger] recipients[j]).identifier@
                    != recipients[k].identifier@) implies tweaks.contains_pair(
            hex_text((#[trigger] recipients[k]).identifier@),
            secret_public_key(
                share_of(views(shares), recipients[k].id as nat)->Some_0.share,
            )->Some_0,
        ) by {
            assert forall|j: int| k < j < seen.len() implies (#[trigger] seen[j]).identifier
                != seen[k].identifier by {
                assert(recipients[j].identifier@ != recipients[k].identifier@);
            }
            assert(seen[k] == recipients[k]@);
        }
        assert forall|name: Seq<char>| #[trigger] tweaks.contains_key(name) implies exists|k: int|
            0 <= k < recipients.len() && hex_text((#[trigger] recipients[k]).identifier@)
                == name by {
            let k = choose|k: int|
                0 <= k < seen.len() && hex_text((#[trigger] seen[k]).identifier) == name;
            assert(hex_text(recipients[k].identifier@) == name);
        }
    } else {
        let k = choose|k: int|
            0 <= k < seen.len() && !{
                let share = share_of(views(shares), (#[trigger] seen[k]).id);
                share is Some && secret_public_key(share->Some_0.share) is Some
            };
        let recipient = recipients[k];
    }
}

/// Whether every operator has a share.
pub open spec fn all_have_shares(
    recipients: Seq<OperatorRecipientView>,
    shares: Seq<VerifiableSecretShareView>,
) -> bool {
    forall|k: int|
        0 <= k < recipients.len() ==> share_of(shares, (#[trigger] recipients[k]).id) is Some
}

/// Where the public key tweaks can be computed, every operator has a share.
pub proof fn tweaked_operators_have_shares(
    recipients: Seq<OperatorRecipientView>,
    shares: Seq<VerifiableSecretShareView>,
)
    requires
        pubkey_tweaks(recipients, shares) is Ok,
    ensures
        all_have_shares(recipients, shares),
{
    let entries = tweak_entries(recipients, shares);
    lemma_collected_values(entries);
    assert forall|k: int| 0 <= k < recipients.len() implies share_of(
        shares,
        (#[trigger] recipients[k]).id,
    ) is Some by {
        assert(entries[k] == tweak_entry(recipients[k], shares));
    }
}

proof fn lemma_share_index(shares: Seq<VerifiableSecretShareView>, operator_id: nat)
    ensures
        share_of(shares, operator_id) matches Some(share) ==> be_value(share.index) == operator_id
            + 1,
    decreases shares.len(),
{
    if shares.len() > 0 {
        lemma_share_index(shares.drop_first(), operator_id);
    }
}

/// Operators with different ids get different shares.
pub proof fn different_operators_different_shares(
    shares: Seq<VerifiableSecretShareView>,
    first: nat,
    second: nat,
)
    requires
        first != second,
        share_of(shares, first) is Some,
        share_of(shares, second) is Some,
    ensures
        share_of(shares, first)->Some_0.index != share_of(shares, second)->Some_0.index,
{
    lemma_share_index(shares, first);
    lemma_share_index(shares, second);
}

} // verus!

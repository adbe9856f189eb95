//! Splitting the key of a leaf into the keys of its children.

use vstd::arithmetic::div_mod::lemma_add_mod_noop;
use vstd::prelude::*;

use crate::error::{SignerError, SignerErrorView};
use crate::frost::FrostDerivation;
use crate::keys::PublicKey;
use crate::model::{view_option, views};
use crate::signer::requests::{
    BindLeafSplitKeysRequest, BindLeafSplitKeysRequestView, PrepareLeafSplitKeysRequest,
    PrepareLeafSplitKeysRequestView, PreparedLeafSplitKeys,
};
use crate::signer::secret::{
    ciphertext_of, encrypted_bytes, leaf_secret, SecretSource, SecretSourceView, SparkSignerAdapter,
    SubtractSecretsRequest,
};
use crate::text::{decimal, decimal_digits, join, join4};

verus! {

/// Why the keys of a split cannot be prepared, whatever the key store holds.
pub open spec fn split_keys_refusal(
    request: PrepareLeafSplitKeysRequestView,
    has_store: bool,
) -> Option<SignerErrorView> {
    if request.operation_id.len() == 0 {
        Some(SignerErrorView::Generic("split operation ID must not be empty"@))
    } else if request.child_count < 2 {
        Some(SignerErrorView::Generic("a leaf split requires at least two children"@))
    } else if !has_store {
        Some(SignerErrorView::Generic("leaf key override store is not configured"@))
    } else {
        None
    }
}

/// Why the keys of a split cannot be bound, whatever the key store holds.
pub open spec fn bind_refusal(
    request: BindLeafSplitKeysRequestView,
    has_store: bool,
) -> Option<SignerErrorView> {
    if !has_store {
        Some(SignerErrorView::Generic("leaf key override store is not configured"@))
    } else if request.child_node_ids.len() == 0 {
        Some(SignerErrorView::Generic("missing child node IDs"@))
    } else {
        None
    }
}

/// The refusal of a request for another number of children than the operation already has.
pub open spec fn child_count_mismatch(
    request: PrepareLeafSplitKeysRequestView,
    stored: nat,
) -> SignerErrorView {
    SignerErrorView::Generic(
        "split operation "@ + request.operation_id + " already has "@ + decimal_digits(stored)
            + " children, requested "@ + decimal_digits(request.child_count),
    )
}

/// Hands on the answer of the key store to a write.
pub fn store_answer(answer: Result<(), String>) -> (result: Result<(), SignerError>)
    ensures
        match (answer, result) {
            (Ok(_), Ok(_)) => true,
            (Err(message), Err(error)) => error@ == SignerErrorView::Generic(message@),
            _ => false,
        },
{
    match answer {
        Ok(_) => Ok(()),
        Err(message) => Err(SignerError::Generic(message)),
    }
}

impl<S, K> SparkSignerAdapter<S, K> {
    /// Starts to prepare the keys of the children of a leaf.
    pub fn prepare_leaf_split_keys(&self, request: PrepareLeafSplitKeysRequest) -> (result: Result<
        PendingKeysNeeded,
        SignerError,
    >)
        ensures
            match result {
                Ok(step) => {
                    &&& split_keys_refusal(request@, self.leaf_key_store is Some) is None
                    &&& step.request == request
                    &&& step.wf()
                },
                Err(error) => split_keys_refusal(request@, self.leaf_key_store is Some) == Some(
                    error@,
                ),
            },
            result is Ok <==> {
                &&& request.operation_id@.len() > 0
                &&& request.child_count >= 2
                &&& self.leaf_key_store is Some
            },
    {
        if request.operation_id.as_str().is_empty() {
            return Err(SignerError::Generic("split operation ID must not be empty".to_string()));
        }
        if request.child_count < 2 {
            return Err(
                SignerError::Generic("a leaf split requires at least two children".to_string()),
            );
        }
        if self.leaf_key_store.is_none() {
            return Err(
                SignerError::Generic("leaf key override store is not configured".to_string()),
            );
        }
        Ok(PendingKeysNeeded { request })
    }

    /// Checks a request to bind the keys of a split. What is accepted goes to the key store.
    pub fn bind_leaf_split_keys(&self, request: BindLeafSplitKeysRequest) -> (result: Result<
        BindLeafSplitKeysRequest,
        SignerError,
    >)
        ensures
            match result {
                Ok(accepted) => {
                    &&& bind_refusal(request@, self.leaf_key_store is Some) is None
                    &&& accepted == request
                },
                Err(error) => bind_refusal(request@, self.leaf_key_store is Some) == Some(error@),
            },
            result is Ok <==> self.leaf_key_store is Some && request.child_node_ids@.len() > 0,
    {
        assert(views(request.child_node_ids@).len() == request.child_node_ids@.len());
        if self.leaf_key_store.is_none() {
            return Err(
                SignerError::Generic("leaf key override store is not configured".to_string()),
            );
        }
        if request.child_node_ids.len() == 0 {
            return Err(SignerError::Generic("missing child node IDs".to_string()));
        }
        Ok(request)
    }
}

/// A split of which the key store may hold the keys already: it is asked by the operation and the
/// parent leaf.
#[derive(Debug, PartialEq, Eq)]
pub struct PendingKeysNeeded {
    pub request: PrepareLeafSplitKeysRequest,
}

/// How the keys of a split come about: they are stored, or made out of the parent's key.
pub enum PendingKeys {
    Stored(ChildKeysNeeded),
    ParentSecretNeeded(ParentSecretNeeded),
}

impl PendingKeysNeeded {
    /// Whether there are at least two children.
    pub open spec fn wf(self) -> bool {
        self.request.child_count >= 2
    }

    /// Takes the keys that the store holds for the operation, if any: a retry gets them again.
    pub fn pending_keys_found(self, stored: Result<Option<Vec<Vec<u8>>>, String>) -> (result:
        Result<PendingKeys, SignerError>)
        requires
            self.wf(),
        ensures
            match stored {
                Err(message) => result matches Err(error) && error@ == SignerErrorView::Generic(
                    message@,
                ),
                Ok(Some(keys)) => if keys@.len() == self.request.child_count {
                    result matches Ok(PendingKeys::Stored(step)) && step.encrypted_keys == keys
                        && step.public_keys@.len() == 0
                } else {
                    result matches Err(error) && error@ == child_count_mismatch(
                        self.request@,
                        keys@.len(),
                    )
                },
                Ok(None) => result matches Ok(PendingKeys::ParentSecretNeeded(step))
                    && step.request == self.request && step.wf(),
            },
            stored matches Ok(Some(keys)) ==> (keys@.len() != self.request.child_count ==> (
            result matches Err(error) && error@ == SignerErrorView::Generic(
                "split operation "@ + self.request.operation_id@ + " already has "@
                    + decimal_digits(keys@.len()) + " children, requested "@ + decimal_digits(
                    self.request.child_count as nat,
                ),
            ))),
    {
        match stored {
            Err(message) => Err(SignerError::Generic(message)),
            Ok(Some(keys)) => {
                if keys.len() != self.request.child_count {
                    let stored_count = decimal(keys.len() as u64);
                    let asked_count = decimal(self.request.child_count as u64);
                    let found = join4(
                        "split operation ",
                        self.request.operation_id.as_str(),
                        " already has ",
                        stored_count.as_str(),
                    );
                    let asked = join(found.as_str(), " children, requested ");
                    return Err(SignerError::Generic(join(asked.as_str(), asked_count.as_str())));
                }
                Ok(
                    PendingKeys::Stored(
                        ChildKeysNeeded { encrypted_keys: keys, public_keys: Vec::new() },
                    ),
                )
            },
            Ok(None) => Ok(
                PendingKeys::ParentSecretNeeded(ParentSecretNeeded { request: self.request }),
            ),
        }
    }
}

/// A split that needs the secret of the parent leaf.
pub struct ParentSecretNeeded {
    pub request: PrepareLeafSplitKeysRequest,
}

impl ParentSecretNeeded {
    /// Whether there are at least two children.
    pub open spec fn wf(self) -> bool {
        self.request.child_count >= 2
    }

    /// The key whose secret is needed.
    pub fn derivation(&self) -> (derivation: FrostDerivation)
        ensures
            derivation == (FrostDerivation::SigningLeaf { leaf_id: self.request.parent_leaf_id }),
    {
        FrostDerivation::SigningLeaf { leaf_id: self.request.parent_leaf_id.clone() }
    }

    /// Takes the parent's secret, all of which is left to give to the children.
    pub fn secret_found(self, parent: SecretSource) -> (split: SecretSplit)
        requires
            self.wf(),
        ensures
            split.wf(),
            split.request == self.request,
            split.remainder == parent,
            split.children@.len() == 0,
            split.trail@ == seq![parent@],
    {
        let ghost trail = seq![parent@];
        SecretSplit {
            request: self.request,
            remainder: parent,
            children: Vec::new(),
            trail: Ghost(trail),
        }
    }
}

/// A secret of which some children have their part.
pub struct SecretSplit {
    pub request: PrepareLeafSplitKeysRequest,
    /// What is left for the other children.
    pub remainder: SecretSource,
    /// The ciphertexts of the children's secrets so far.
    pub children: Vec<Vec<u8>>,
    /// What was left after each child so far, the parent's secret first.
    pub trail: Ghost<Seq<SecretSourceView>>,
}

/// What splitting a secret needs next.
pub enum SplitStep {
    /// A random secret for the next child.
    RandomSecretNeeded(SecretSplit),
    /// The store has to take the children's secrets.
    StoreNeeded(StoreNeeded),
}

impl SecretSplit {
    /// Whether the trail leads to the remainder, and at least one child is left.
    pub open spec fn wf(self) -> bool {
        &&& self.request.child_count >= 2
        &&& self.children@.len() < self.request.child_count
        &&& self.trail@.len() == self.children@.len() + 1
        &&& self.trail@.last() == self.remainder@
    }

    /// Every child but the last gets a random secret; the last gets what is left, and then the
    /// secrets are stored.
    pub fn next(self) -> (result: Result<SplitStep, SignerError>)
        requires
            self.wf(),
        ensures
            if self.children@.len() + 1 < self.request.child_count {
                result matches Ok(SplitStep::RandomSecretNeeded(split)) && split == self
            } else {
                match result {
                    Ok(SplitStep::StoreNeeded(step)) => {
                        &&& ciphertext_of(self.remainder@) == Ok::<Seq<u8>, SignerErrorView>(
                            views(step.children@).last(),
                        )
                        &&& views(step.children@).drop_last() == views(self.children@)
                        &&& step.request == self.request
                        &&& step.trail == self.trail
                        &&& step.wf()
                    },
                    Ok(_) => false,
                    Err(error) => ciphertext_of(self.remainder@) == Err::<
                        Seq<u8>,
                        SignerErrorView,
                    >(error@),
                }
            },
            self.children@.len() + 1 == self.request.child_count ==> match self.remainder {
                SecretSource::Encrypted(ciphertext) => {
                    &&& result matches Ok(SplitStep::StoreNeeded(step))
                    &&& step.children@.len() == self.request.child_count
                    &&& step.children@.drop_last() == self.children@
                    &&& step.children@.last()@ == ciphertext@
                },
                SecretSource::Derived(_) => result is Err,
            },
    {
        if self.children.len() + 1 < self.request.child_count {
            return Ok(SplitStep::RandomSecretNeeded(self));
        }
        let last = match encrypted_bytes(&self.remainder) {
            Ok(ciphertext) => ciphertext,
            Err(error) => return Err(error),
        };
        let ghost before = self.children@;
        let mut children = self.children;
        children.push(last);
        assert(views(children@).drop_last() =~= views(before));
        assert(children@.drop_last() =~= before);
        Ok(
            SplitStep::StoreNeeded(
                StoreNeeded { request: self.request, children, trail: self.trail },
            ),
        )
    }

    /// Takes the ciphertext of a random secret, and asks what of the remainder it leaves.
    pub fn random_secret_made(self, ciphertext: Vec<u8>) -> (step: DifferenceNeeded)
        ensures
            step.split == self,
            step.child@ == SecretSourceView::Encrypted(ciphertext@),
    {
        DifferenceNeeded { split: self, child: SecretSource::Encrypted(ciphertext) }
    }
}

/// A split that needs the secret `split.remainder` minus the secret `child`.
pub struct DifferenceNeeded {
    pub split: SecretSplit,
    pub child: SecretSource,
}

impl DifferenceNeeded {
    /// The question to the low-level signer.
    pub fn question(&self) -> (question: SubtractSecretsRequest)
        ensures
            question.from@ == self.split.remainder@,
            question.subtracted@ == self.child@,
    {
        SubtractSecretsRequest {
            from: self.split.remainder.clone(),
            subtracted: self.child.clone(),
        }
    }

    /// Takes the difference, which is left for the other children.
    pub fn difference_found(self, difference: SecretSource) -> (result: Result<
        SecretSplit,
        SignerError,
    >)
        requires
            self.split.wf(),
            self.split.children@.len() + 1 < self.split.request.child_count,
        ensures
            match result {
                Ok(next) => {
                    &&& ciphertext_of(self.child@) == Ok::<Seq<u8>, SignerErrorView>(
                        views(next.children@).last(),
                    )
                    &&& views(next.children@).drop_last() == views(self.split.children@)
                    &&& next.remainder == difference
                    &&& next.request == self.split.request
                    &&& next.trail@ == self.split.trail@.push(difference@)
                    &&& next.wf()
                },
                Err(error) => ciphertext_of(self.child@) == Err::<Seq<u8>, SignerErrorView>(
                    error@,
                ),
            },
            match self.child {
                SecretSource::Encrypted(ciphertext) => {
                    &&& result matches Ok(next)
                    &&& next.children@.len() == self.split.children@.len() + 1
                    &&& next.children@.drop_last() == self.split.children@
                    &&& next.children@.last()@ == ciphertext@
                    &&& next.remainder == difference
                },
                SecretSource::Derived(_) => result is Err,
            },
    {
        let ciphertext = match encrypted_bytes(&self.child) {
            Ok(ciphertext) => ciphertext,
            Err(error) => return Err(error),
        };
        let split = self.split;
        let ghost before = split.children@;
        let mut children = split.children;
        children.push(ciphertext);
        assert(views(children@).drop_last() =~= views(before));
        assert(children@.drop_last() =~= before);
        Ok(
            SecretSplit {
                request: split.request,
                remainder: difference,
                children,
                trail: Ghost(split.trail@.push(difference@)),
            },
        )
    }
}

/// A split whose secrets the key store has to take, for the operation and the parent leaf.
pub struct StoreNeeded {
    pub request: PrepareLeafSplitKeysRequest,
    pub children: Vec<Vec<u8>>,
    /// What was left after each child but the last, the parent's secret first.
    pub trail: Ghost<Seq<SecretSourceView>>,
}

impl StoreNeeded {
    /// Whether there is a secret for each child, the last of them what the others left.
    pub open spec fn wf(self) -> bool {
        &&& self.children@.len() == self.request.child_count
        &&& self.children@.len() >= 2
        &&& self.trail@.len() == self.children@.len()
        &&& self.trail@.last() == SecretSourceView::Encrypted(self.children@.last()@)
    }

    /// Takes the answer of the store. The keys are those that it was given to hold.
    pub fn stored(self, answer: Result<(), String>) -> (result: Result<
        ChildKeysNeeded,
        SignerError,
    >)
        ensures
            match (answer, result) {
                (Ok(_), Ok(step)) => step.encrypted_keys == self.children
                    && step.public_keys@.len() == 0,
                (Err(message), Err(error)) => error@ == SignerErrorView::Generic(message@),
                _ => false,
            },
    {
        match store_answer(answer) {
            Ok(_) => Ok(ChildKeysNeeded { encrypted_keys: self.children, public_keys: Vec::new() }),
            Err(error) => Err(error),
        }
    }
}

/// Stored keys of children, some of whose public keys are known.
pub struct ChildKeysNeeded {
    pub encrypted_keys: Vec<Vec<u8>>,
    pub public_keys: Vec<PublicKey>,
}

impl ChildKeysNeeded {
    /// Whether the known public keys are those of the secrets at their places.
    pub open spec fn answered_by(
        self,
        public_key: spec_fn(SecretSourceView) -> Seq<u8>,
    ) -> bool {
        &&& self.public_keys@.len() <= self.encrypted_keys@.len()
        &&& forall|i: int|
            0 <= i < self.public_keys@.len() ==> (#[trigger] self.public_keys@[i])@ == public_key(
                SecretSourceView::Encrypted(self.encrypted_keys@[i]@),
            )
    }

    /// The next secret whose public key is needed.
    pub fn next(&self) -> (secret: Option<SecretSource>)
        ensures
            view_option(secret) == if self.public_keys@.len() < self.encrypted_keys@.len() {
                Some(
                    SecretSourceView::Encrypted(
                        self.encrypted_keys@[self.public_keys@.len() as int]@,
                    ),
                )
            } else {
                None
            },
    {
        let i: usize = self.public_keys.len();
        if i < self.encrypted_keys.len() {
            Some(SecretSource::Encrypted(crate::model::copy_bytes(&self.encrypted_keys[i])))
        } else {
            None
        }
    }

    /// Takes the public key of that secret.
    pub fn public_key_found(self, key: PublicKey) -> (next: ChildKeysNeeded)
        ensures
            next.encrypted_keys == self.encrypted_keys,
            next.public_keys@ == self.public_keys@.push(key),
    {
        let mut next = self;
        next.public_keys.push(key);
        next
    }

    /// The public keys, in order.
    pub fn finish(self) -> (prepared: PreparedLeafSplitKeys)
        ensures
            prepared.child_public_keys == self.public_keys,
    {
        PreparedLeafSplitKeys { child_public_keys: self.public_keys }
    }
}

/// A retry gives the same keys: where the store gives back the ciphertexts that it took, and the
/// signer answers as before, the public keys come out as before.
pub proof fn retry_gives_the_same_keys(
    stored: StoreNeeded,
    first: ChildKeysNeeded,
    retry: ChildKeysNeeded,
    public_key: spec_fn(SecretSourceView) -> Seq<u8>,
)
    requires
        first.encrypted_keys == stored.children,
        views(retry.encrypted_keys@) == views(stored.children@),
        first.answered_by(public_key),
        retry.answered_by(public_key),
        first.public_keys@.len() == first.encrypted_keys@.len(),
        retry.public_keys@.len() == retry.encrypted_keys@.len(),
    ensures
        views(retry.public_keys@) == views(first.public_keys@),
{
    assert(views(retry.encrypted_keys@).len() == retry.encrypted_keys@.len());
    assert(views(stored.children@).len() == stored.children@.len());
    assert forall|i: int| 0 <= i < first.public_keys@.len() implies #[trigger] views(
        retry.public_keys@,
    )[i] == views(first.public_keys@)[i] by {
        assert(views(retry.encrypted_keys@)[i] == views(stored.children@)[i]);
        assert(retry.public_keys@[i]@ == public_key(
            SecretSourceView::Encrypted(retry.encrypted_keys@[i]@),
        ));
        assert(first.public_keys@[i]@ == public_key(
            SecretSourceView::Encrypted(first.encrypted_keys@[i]@),
        ));
    }
    assert(views(retry.public_keys@) =~= views(first.public_keys@));
}

/// A bound leaf has the key that the split gave it: where the store gives, for a created leaf, the
/// ciphertext that it took for the child at a position, the leaf's secret is that very secret, and
/// its public key is the one that the split gave for that child. Nothing but what is stored enters
/// into it, so it holds across a restart.
pub proof fn bound_leaf_keeps_its_key(
    stored: StoreNeeded,
    first: ChildKeysNeeded,
    public_key: spec_fn(SecretSourceView) -> Seq<u8>,
    leaf_id: Seq<char>,
    i: int,
)
    requires
        first.encrypted_keys == stored.children,
        first.answered_by(public_key),
        0 <= i < first.public_keys@.len(),
    ensures
        leaf_secret(leaf_id, Ok(Some(stored.children@[i]@))) == Ok::<
            SecretSourceView,
            SignerErrorView,
        >(SecretSourceView::Encrypted(stored.children@[i]@)),
        public_key(leaf_secret(leaf_id, Ok(Some(stored.children@[i]@)))->Ok_0)
            == first.public_keys@[i]@,
{
    assert(first.public_keys@[i]@ == public_key(
        SecretSourceView::Encrypted(first.encrypted_keys@[i]@),
    ));
}

/// The sum of the secrets that are given as ciphertexts, for a reading of secrets as numbers.
pub open spec fn secret_sum(
    value: spec_fn(SecretSourceView) -> int,
    ciphertexts: Seq<Seq<u8>>,
) -> int
    decreases ciphertexts.len(),
{
    if ciphertexts.len() == 0 {
        0
    } else {
        secret_sum(value, ciphertexts.drop_last()) + value(
            SecretSourceView::Encrypted(ciphertexts.last()),
        )
    }
}

/// Two numbers that differ by a multiple of the order of the group.
pub open spec fn congruent(left: int, right: int, order: int) -> bool {
    (left - right) % order == 0
}

proof fn lemma_congruent_sum(a: int, b: int, order: int)
    requires
        order > 0,
        a % order == 0,
        b % order == 0,
    ensures
        (a + b) % order == 0,
{
    lemma_add_mod_noop(a, b, order);
    vstd::arithmetic::div_mod::lemma_small_mod(0, order as nat);
}

proof fn lemma_sum_so_far(
    value: spec_fn(SecretSourceView) -> int,
    order: int,
    trail: Seq<SecretSourceView>,
    ciphertexts: Seq<Seq<u8>>,
)
    requires
        order > 0,
        trail.len() == ciphertexts.len() + 1,
        forall|i: int|
            0 <= i < ciphertexts.len() ==> congruent(
                value(trail[i + 1]),
                value(trail[i]) - value(SecretSourceView::Encrypted(#[trigger] ciphertexts[i])),
                order,
            ),
    ensures
        congruent(secret_sum(value, ciphertexts) + value(trail.last()), value(trail[0]), order),
    decreases ciphertexts.len(),
{
    if ciphertexts.len() == 0 {
        vstd::arithmetic::div_mod::lemma_small_mod(0, order as nat);
    } else {
        let shorter = ciphertexts.drop_last();
        let n = shorter.len() as int;
        assert forall|i: int| 0 <= i < shorter.len() implies congruent(
            value(trail.drop_last()[i + 1]),
            value(trail.drop_last()[i]) - value(
                SecretSourceView::Encrypted(#[trigger] shorter[i]),
            ),
            order,
        ) by {
            assert(shorter[i] == ciphertexts[i]);
        }
        lemma_sum_so_far(value, order, trail.drop_last(), shorter);
        let child = value(SecretSourceView::Encrypted(ciphertexts[n]));
        assert(trail.drop_last().last() == trail[n]);
        assert(trail.drop_last()[0] == trail[0]);
        assert(congruent(value(trail[n + 1]), value(trail[n]) - child, order));
        lemma_congruent_sum(
            secret_sum(value, shorter) + value(trail[n]) - value(trail[0]),
            value(trail[n + 1]) - (value(trail[n]) - child),
            order,
        );
        assert(secret_sum(value, ciphertexts) + value(trail.last()) - value(trail[0]) == (
        secret_sum(value, shorter) + value(trail[n]) - value(trail[0])) + (value(trail[n + 1]) - (
        value(trail[n]) - child)));
    }
}

/// The children's secrets sum to the parent's. Read secrets as numbers modulo the order of the
/// group: if each remainder of the run is the one before it minus the child's secret, as the
/// signer was asked for it, then the secrets that go to the store sum to the parent's.
pub proof fn children_sum_to_parent(
    step: StoreNeeded,
    value: spec_fn(SecretSourceView) -> int,
    order: int,
)
    requires
        order > 0,
        step.wf(),
        forall|i: int|
            0 <= i < step.children@.len() - 1 ==> congruent(
                value(step.trail@[i + 1]),
                value(step.trail@[i]) - value(
                    SecretSourceView::Encrypted(#[trigger] step.children@[i]@),
                ),
                order,
            ),
    ensures
        congruent(secret_sum(value, views(step.children@)), value(step.trail@[0]), order),
{
    let all = views(step.children@);
    let given = all.drop_last();
    assert forall|i: int| 0 <= i < given.len() implies congruent(
        value(step.trail@[i + 1]),
        value(step.trail@[i]) - value(SecretSourceView::Encrypted(#[trigger] given[i])),
        order,
    ) by {
        assert(given[i] == step.children@[i]@);
    }
    lemma_sum_so_far(value, order, step.trail@, given);
    assert(all.last() == step.children@.last()@);
}

/// Keys are prepared exactly for a named operation with at least two children, however many, where
/// there is a store to hold them. Keys are bound exactly where there is a store and a leaf to bind
/// them to.
pub proof fn split_keys_by_the_rules_are_accepted(
    request: PrepareLeafSplitKeysRequestView,
    bind: BindLeafSplitKeysRequestView,
    has_store: bool,
)
    ensures
        split_keys_refusal(request, has_store) is None <==> request.operation_id.len() > 0
            && request.child_count >= 2 && has_store,
        bind_refusal(bind, has_store) is None <==> bind.child_node_ids.len() > 0 && has_store,
        request.operation_id.len() == 0 ==> split_keys_refusal(request, has_store) == Some(
            SignerErrorView::Generic("split operation ID must not be empty"@),
        ),
        request.operation_id.len() > 0 && request.child_count < 2 ==> split_keys_refusal(
            request,
            has_store,
        ) == Some(SignerErrorView::Generic("a leaf split requires at least two children"@)),
        !has_store ==> bind_refusal(bind, has_store) == Some(
            SignerErrorView::Generic("leaf key override store is not configured"@),
        ),
{
}

/// The sum of secrets does not depend on how they are grouped: that of two lists in a row is the
/// sum of their sums, and one secret is its own sum.
pub proof fn secret_sums_add_up(
    value: spec_fn(SecretSourceView) -> int,
    first: Seq<Seq<u8>>,
    second: Seq<Seq<u8>>,
    ciphertext: Seq<u8>,
)
    ensures
        secret_sum(value, first + second) == secret_sum(value, first) + secret_sum(value, second),
        secret_sum(value, seq![ciphertext]) == value(SecretSourceView::Encrypted(ciphertext)),
        secret_sum(value, Seq::<Seq<u8>>::empty()) == 0,
    decreases second.len(),
{
    let none = Seq::<Seq<u8>>::empty();
    assert(secret_sum(value, none) == 0);
    assert(seq![ciphertext].drop_last() =~= none);
    assert(secret_sum(value, seq![ciphertext]) == secret_sum(value, seq![ciphertext].drop_last())
        + value(SecretSourceView::Encrypted(seq![ciphertext].last())));
    if second.len() == 0 {
        assert(first + second =~= first);
    } else {
        assert((first + second).drop_last() =~= first + second.drop_last());
        assert((first + second).last() == second.last());
        secret_sums_add_up(value, first, second.drop_last(), ciphertext);
    }
}

} // verus!

//! The order of byte strings, and lists that are sorted by it.

use vstd::prelude::*;

verus! {

/// Whether a byte string comes before another: at the first place where they differ it has the
/// smaller byte, or it ends there.
pub open spec fn before(left: Seq<u8>, right: Seq<u8>) -> bool
    decreases left.len(),
{
    if right.len() == 0 {
        false
    } else if left.len() == 0 {
        true
    } else if left[0] != right[0] {
        left[0] < right[0]
    } else {
        before(left.drop_first(), right.drop_first())
    }
}

/// Two byte strings are ordered by the first place where they differ: by the bytes there, or, where
/// one of them ends there, the one that ends comes first.
pub proof fn order_is_decided_at_the_first_difference(left: Seq<u8>, right: Seq<u8>, place: int)
    requires
        0 <= place <= left.len(),
        place <= right.len(),
        left.take(place) == right.take(place),
        place < left.len() && place < right.len() ==> left[place] != right[place],
    ensures
        before(left, right) <==> place < right.len() && (place == left.len() || left[place]
            < right[place]),
    decreases place,
{
    if place > 0 {
        assert forall|i: int| 0 <= i < place implies left[i] == right[i] by {
            assert(left.take(place)[i] == left[i]);
            assert(right.take(place)[i] == right[i]);
        }
        let left_rest = left.drop_first();
        let right_rest = right.drop_first();
        assert forall|i: int| 0 <= i < place - 1 implies left_rest[i] == right_rest[i] by {
            assert(left[i + 1] == right[i + 1]);
        }
        assert(left_rest.take(place - 1) =~= right_rest.take(place - 1));
        order_is_decided_at_the_first_difference(left_rest, right_rest, place - 1);
    }
}

/// Whether each key comes before the keys after it, so that none occurs twice.
pub open spec fn ascending(keys: Seq<Seq<u8>>) -> bool {
    forall|i: int, j: int|
        0 <= i < j < keys.len() ==> before(#[trigger] keys[i], #[trigger] keys[j])
}

/// Whether a place parts the keys before a key from the others.
pub open spec fn is_place(keys: Seq<Seq<u8>>, key: Seq<u8>, place: int) -> bool {
    &&& 0 <= place <= keys.len()
    &&& forall|i: int| 0 <= i < place ==> before(#[trigger] keys[i], key)
    &&& forall|i: int| place <= i < keys.len() ==> !before(#[trigger] keys[i], key)
}

/// No byte string comes before itself.
pub proof fn lemma_irreflexive(bytes: Seq<u8>)
    ensures
        !before(bytes, bytes),
    decreases bytes.len(),
{
    if bytes.len() > 0 {
        lemma_irreflexive(bytes.drop_first());
    }
}

/// What comes before what comes before, comes before.
pub proof fn lemma_transitive(first: Seq<u8>, second: Seq<u8>, third: Seq<u8>)
    requires
        before(first, second),
        before(second, third),
    ensures
        before(first, third),
    decreases first.len(),
{
    if first.len() > 0 && first[0] == second[0] && second[0] == third[0] {
        lemma_transitive(first.drop_first(), second.drop_first(), third.drop_first());
    }
}

/// Of two different byte strings one comes before the other.
pub proof fn lemma_total(left: Seq<u8>, right: Seq<u8>)
    requires
        left != right,
    ensures
        before(left, right) || before(right, left),
    decreases left.len(),
{
    if left.len() == 0 || right.len() == 0 {
        if left.len() == right.len() {
            assert(left =~= right);
        }
    } else if left[0] == right[0] {
        if left.drop_first() == right.drop_first() {
            assert(left =~= seq![left[0]] + left.drop_first());
            assert(right =~= seq![right[0]] + right.drop_first());
        }
        lemma_total(left.drop_first(), right.drop_first());
    }
}

/// Among ascending keys, the first that does not come before a key marks its place.
pub proof fn lemma_place(keys: Seq<Seq<u8>>, key: Seq<u8>, place: int)
    requires
        ascending(keys),
        0 <= place <= keys.len(),
        forall|i: int| 0 <= i < place ==> before(#[trigger] keys[i], key),
        place < keys.len() ==> !before(keys[place], key),
    ensures
        is_place(keys, key, place),
{
    assert forall|i: int| place <= i < keys.len() implies !before(#[trigger] keys[i], key) by {
        if i > place && before(keys[i], key) {
            assert(before(keys[place], keys[i]));
            lemma_transitive(keys[place], keys[i], key);
        }
    }
}

/// A key that is not among ascending keys goes to its place, and they still ascend.
pub proof fn lemma_inserted_ascends(keys: Seq<Seq<u8>>, key: Seq<u8>, place: int)
    requires
        ascending(keys),
        is_place(keys, key, place),
        place < keys.len() ==> keys[place] != key,
    ensures
        ascending(keys.insert(place, key)),
{
    let more = keys.insert(place, key);
    if place < keys.len() {
        lemma_total(keys[place], key);
    }
    assert forall|i: int, j: int| 0 <= i < j < more.len() implies before(
        #[trigger] more[i],
        #[trigger] more[j],
    ) by {
        if j < place {
            assert(more[i] == keys[i] && more[j] == keys[j]);
        } else if j == place {
            assert(more[i] == keys[i]);
        } else if i < place {
            assert(more[i] == keys[i] && more[j] == keys[j - 1]);
        } else if i == place {
            assert(more[j] == keys[j - 1]);
            if j - 1 > place {
                assert(before(keys[place], keys[j - 1]));
                lemma_transitive(key, keys[place], keys[j - 1]);
            }
        } else {
            assert(more[i] == keys[i - 1] && more[j] == keys[j - 1]);
        }
    }
}

/// Among ascending keys a key stands nowhere but at its place.
pub proof fn lemma_only_at_place(keys: Seq<Seq<u8>>, key: Seq<u8>, place: int, i: int)
    requires
        ascending(keys),
        is_place(keys, key, place),
        0 <= i < keys.len(),
        keys[i] == key,
    ensures
        i == place,
{
    lemma_irreflexive(key);
    if i > place {
        assert(before(keys[place], keys[i]));
    }
}

/// Ascending keys are all different.
pub proof fn lemma_ascending_keys_differ(keys: Seq<Seq<u8>>)
    requires
        ascending(keys),
    ensures
        keys.no_duplicates(),
{
    assert forall|i: int, j: int|
        0 <= i < keys.len() && 0 <= j < keys.len() && i != j implies keys[i] != keys[j] by {
        lemma_irreflexive(keys[i]);
        if i < j {
            assert(before(keys[i], keys[j]));
        } else {
            assert(before(keys[j], keys[i]));
        }
    }
}

/// Whether a byte string comes before another.
pub fn is_before(left: &[u8], right: &[u8]) -> (result: bool)
    ensures
        result == before(left@, right@),
        exists|place: int|
            {
                &&& 0 <= place <= left@.len()
                &&& place <= right@.len()
                &&& #[trigger] left@.take(place) == right@.take(place)
                &&& if place < left@.len() && place < right@.len() {
                    left@[place] != right@[place] && result == (left@[place] < right@[place])
                } else {
                    result == (place < right@.len())
                }
            },
{
    let mut i: usize = 0;
    assert(left@.skip(0) =~= left@);
    assert(right@.skip(0) =~= right@);
    assert(left@.take(0) =~= right@.take(0));
    while i < left.len() && i < right.len()
        invariant
            i <= left@.len(),
            i <= right@.len(),
            left@.take(i as int) == right@.take(i as int),
            before(left@, right@) == before(left@.skip(i as int), right@.skip(i as int)),
        decreases left@.len() - i,
    {
        assert(left@.skip(i as int).drop_first() =~= left@.skip(i + 1));
        assert(right@.skip(i as int).drop_first() =~= right@.skip(i + 1));
        if left[i] != right[i] {
            return left[i] < right[i];
        }
        assert(left@.take(i + 1) =~= left@.take(i as int).push(left@[i as int]));
        assert(right@.take(i + 1) =~= right@.take(i as int).push(right@[i as int]));
        i = i + 1;
    }
    i < right.len()
}

} // verus!

//! Vocabulary that the contracts share: views of containers, and lists of results.

use vstd::prelude::*;

verus! {

/// The views of the elements, in order.
pub open spec fn views<T: View>(items: Seq<T>) -> Seq<T::V> {
    Seq::new(items.len(), |i: int| items[i]@)
}

/// The view of what an option holds.
pub open spec fn view_option<T: View>(value: Option<T>) -> Option<T::V> {
    match value {
        Some(inner) => Some(inner@),
        None => None,
    }
}

/// The view of what a result holds.
pub open spec fn view_result<T: View, E: View>(result: Result<T, E>) -> Result<T::V, E::V> {
    match result {
        Ok(value) => Ok(value@),
        Err(error) => Err(error@),
    }
}

/// All values if every item is one, else the first error.
pub open spec fn collected<A, E>(items: Seq<Result<A, E>>) -> Result<Seq<A>, E>
    decreases items.len(),
{
    if items.len() == 0 {
        Ok(Seq::empty())
    } else {
        match collected(items.drop_last()) {
            Ok(values) => match items.last() {
                Ok(value) => Ok(values.push(value)),
                Err(error) => Err(error),
            },
            Err(error) => Err(error),
        }
    }
}

/// What `collected` gives of a prefix, one item longer.
pub proof fn lemma_collected_step<A, E>(items: Seq<Result<A, E>>, i: int)
    requires
        0 <= i < items.len(),
    ensures
        collected(items.take(i + 1)) == (match collected(items.take(i)) {
            Ok(values) => match items[i] {
                Ok(value) => Ok::<Seq<A>, E>(values.push(value)),
                Err(error) => Err(error),
            },
            Err(error) => Err(error),
        }),
{
    assert(items.take(i + 1).drop_last() =~= items.take(i));
}

/// An error that a prefix meets is the error of the whole list.
pub proof fn lemma_collected_error<A, E>(items: Seq<Result<A, E>>, i: int)
    requires
        0 <= i <= items.len(),
        collected(items.take(i)) is Err,
    ensures
        collected(items) == collected(items.take(i)),
    decreases items.len() - i,
{
    if i == items.len() {
        assert(items.take(i) =~= items);
    } else {
        lemma_collected_step(items, i);
        lemma_collected_error(items, i + 1);
    }
}

/// What collects to values consists of values.
pub proof fn lemma_collected_values<A, E>(items: Seq<Result<A, E>>)
    requires
        collected(items) is Ok,
    ensures
        collected(items)->Ok_0.len() == items.len(),
        forall|i: int|
            0 <= i < items.len() ==> #[trigger] items[i] == Ok::<A, E>(collected(items)->Ok_0[i]),
    decreases items.len(),
{
    if items.len() > 0 {
        lemma_collected_values(items.drop_last());
        assert forall|i: int| 0 <= i < items.len() implies #[trigger] items[i] == Ok::<A, E>(
            collected(items)->Ok_0[i],
        ) by {
            if i < items.len() - 1 {
                assert(items.drop_last()[i] == items[i]);
            }
        }
    }
}

/// A list of results collects to its values exactly where every item is one, and else to the error
/// of the first item that is none.
pub proof fn collected_is_all_or_the_first_error<A, E>(items: Seq<Result<A, E>>)
    ensures
        collected(items) is Ok <==> forall|i: int|
            0 <= i < items.len() ==> #[trigger] items[i] is Ok,
        match collected(items) {
            Ok(values) => {
                &&& values.len() == items.len()
                &&& forall|i: int|
                    0 <= i < items.len() ==> #[trigger] items[i] == Ok::<A, E>(values[i])
            },
            Err(error) => exists|i: int|
                {
                    &&& 0 <= i < items.len()
                    &&& #[trigger] items[i] == Err::<A, E>(error)
                    &&& forall|j: int| 0 <= j < i ==> items[j] is Ok
                },
        },
    decreases items.len(),
{
    if items.len() > 0 {
        let rest = items.drop_last();
        collected_is_all_or_the_first_error(rest);
        assert forall|i: int| 0 <= i < rest.len() implies #[trigger] rest[i] == items[i] by {}
        match collected(rest) {
            Ok(values) => {
                assert forall|i: int| 0 <= i < rest.len() implies #[trigger] items[i] == Ok::<A, E>(
                    values[i],
                ) by {
                    assert(rest[i] == items[i]);
                }
                assert(items[items.len() - 1] == items.last());
            },
            Err(error) => {
                let i = choose|i: int|
                    {
                        &&& 0 <= i < rest.len()
                        &&& #[trigger] rest[i] == Err::<A, E>(error)
                        &&& forall|j: int| 0 <= j < i ==> rest[j] is Ok
                    };
                assert(items[i] == Err::<A, E>(error));
                assert forall|j: int| 0 <= j < i implies items[j] is Ok by {
                    assert(rest[j] is Ok);
                }
            },
        }
    }
}

/// A copy of a byte string.
pub fn copy_bytes(bytes: &Vec<u8>) -> (copy: Vec<u8>)
    ensures
        copy@ == bytes@,
{
    bytes.clone()
}

/// A copy of a list of byte strings.
pub fn copy_byte_strings(items: &Vec<Vec<u8>>) -> (copy: Vec<Vec<u8>>)
    ensures
        views(copy@) == views(items@),
        copy@.len() == items@.len(),
        forall|i: int| 0 <= i < items@.len() ==> (#[trigger] copy@[i])@ == items@[i]@,
{
    let copy = items.clone();
    assert(views(copy@) =~= views(items@));
    copy
}

/// Whether two byte strings are equal.
pub fn same_bytes(left: &[u8], right: &[u8]) -> (same: bool)
    ensures
        same == (left@ == right@),
{
    if left.len() != right.len() {
        return false;
    }
    let mut i: usize = 0;
    while i < left.len()
        invariant
            i <= left@.len(),
            left@.len() == right@.len(),
            forall|j: int| 0 <= j < i ==> left@[j] == right@[j],
        decreases left@.len() - i,
    {
        if left[i] != right[i] {
            return false;
        }
        i = i + 1;
    }
    assert(left@ =~= right@);
    true
}

} // verus!

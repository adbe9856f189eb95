//! One item for each of some operators.

use vstd::prelude::*;

use crate::keys::Identifier;
use crate::model::views;
use crate::order::{
    ascending, before, is_before, is_place, lemma_inserted_ascends, lemma_only_at_place,
    lemma_place,
};

verus! {

/// What belongs to one operator.
pub trait OfOperator: View + Sized {
    /// The identifier of the operator.
    spec fn operator(item: Self::V) -> Seq<u8>;

    /// The identifier of the operator.
    fn identifier(&self) -> (identifier: Identifier)
        ensures
            identifier@ == Self::operator(self@),
    ;

    /// A copy of it.
    fn copy(&self) -> (copy: Self)
        ensures
            copy@ == self@,
    ;
}

/// The identifiers of the operators that items belong to.
pub open spec fn operators<T: OfOperator>(items: Seq<T::V>) -> Seq<Seq<u8>> {
    Seq::new(items.len(), |i: int| T::operator(items[i]))
}

/// The items with one more at a place, or in the place of what belongs to the same operator.
pub open spec fn put_at<T: OfOperator>(items: Seq<T::V>, item: T::V, place: int) -> Seq<T::V> {
    if place < items.len() && T::operator(items[place]) == T::operator(item) {
        items.update(place, item)
    } else {
        items.insert(place, item)
    }
}

/// An item that is put at its place is there, every item of another operator stays, and what
/// belonged to the same operator is gone.
pub proof fn putting_keeps_the_others<T: OfOperator>(items: Seq<T::V>, item: T::V, place: int)
    requires
        ascending(operators::<T>(items)),
        is_place(operators::<T>(items), T::operator(item), place),
    ensures
        put_at::<T>(items, item, place).contains(item),
        forall|i: int|
            0 <= i < items.len() && T::operator(#[trigger] items[i]) != T::operator(item)
                ==> put_at::<T>(items, item, place).contains(items[i]),
        forall|j: int|
            0 <= j < put_at::<T>(items, item, place).len() ==> (#[trigger] put_at::<T>(
                items,
                item,
                place,
            )[j] == item || (items.contains(put_at::<T>(items, item, place)[j]) && T::operator(
                put_at::<T>(items, item, place)[j],
            ) != T::operator(item))),
{
    let keys = operators::<T>(items);
    let put = put_at::<T>(items, item, place);
    assert(put[place] == item);
    assert forall|i: int|
        0 <= i < items.len() && T::operator(#[trigger] items[i]) != T::operator(
            item,
        ) implies put.contains(items[i]) by {
        if put.len() == items.len() || i < place {
            assert(put[i] == items[i]);
        } else {
            assert(put[i + 1] == items[i]);
        }
    }
    assert forall|j: int| 0 <= j < put.len() implies (#[trigger] put[j] == item || (items.contains(
        put[j],
    ) && T::operator(put[j]) != T::operator(item))) by {
        if j != place {
            let i = if put.len() == items.len() || j < place {
                j
            } else {
                j - 1
            };
            assert(put[j] == items[i]);
            if keys[i] == T::operator(item) {
                lemma_only_at_place(keys, T::operator(item), place, i);
            }
            assert(keys[i] == T::operator(items[i]));
        }
    }
}

/// Items of operators: the identifiers ascend, so that no operator has two.
#[derive(Debug, PartialEq, Eq)]
pub struct ByOperator<T: OfOperator> {
    items: Vec<T>,
}

impl<T: OfOperator> View for ByOperator<T> {
    type V = Seq<T::V>;

    closed spec fn view(&self) -> Seq<T::V> {
        views(self.items@)
    }
}

impl<T: OfOperator> Clone for ByOperator<T> {
    fn clone(&self) -> (copy: Self)
        ensures
            copy@ == self@,
    {
        proof {
            use_type_invariant(self);
        }
        let mut items: Vec<T> = Vec::new();
        let mut i: usize = 0;
        while i < self.items.len()
            invariant
                i <= self.items@.len(),
                items@.len() == i,
                forall|j: int| 0 <= j < i ==> (#[trigger] items@[j])@ == self.items@[j]@,
            decreases self.items@.len() - i,
        {
            items.push(self.items[i].copy());
            i = i + 1;
        }
        assert(views(items@) =~= views(self.items@));
        ByOperator { items }
    }
}

impl<T: OfOperator> ByOperator<T> {
    #[verifier::type_invariant]
    closed spec fn is_ordered(self) -> bool {
        ascending(operators::<T>(views(self.items@)))
    }

    /// No items.
    pub fn new() -> (list: ByOperator<T>)
        ensures
            list@ == Seq::<T::V>::empty(),
    {
        let items: Vec<T> = Vec::new();
        assert(views(items@) =~= Seq::<T::V>::empty());
        ByOperator { items }
    }

    /// The items with one more, which takes the place of what belongs to the same operator.
    pub fn inserted(self, item: T) -> (list: ByOperator<T>)
        ensures
            exists|place: int|
                #[trigger] is_place(operators::<T>(self@), T::operator(item@), place) && list@
                    == put_at::<T>(self@, item@, place),
            list@.contains(item@),
            forall|i: int|
                0 <= i < self@.len() && T::operator(#[trigger] self@[i]) != T::operator(item@)
                    ==> list@.contains(self@[i]),
            forall|j: int|
                0 <= j < list@.len() ==> (#[trigger] list@[j] == item@ || (self@.contains(list@[j])
                    && T::operator(list@[j]) != T::operator(item@))),
    {
        proof {
            use_type_invariant(&self);
        }
        let ghost held = views(self.items@);
        let ghost keys = operators::<T>(held);
        let ghost added = item@;
        let identifier = item.identifier();
        let mut items = self.items;
        let mut i: usize = 0;
        while i < items.len() && is_before(
            items[i].identifier().bytes.as_slice(),
            identifier.bytes.as_slice(),
        )
            invariant
                i <= items@.len(),
                held == views(items@),
                keys == operators::<T>(held),
                identifier@ == T::operator(added),
                forall|j: int| 0 <= j < i ==> before(#[trigger] keys[j], T::operator(added)),
            decreases items@.len() - i,
        {
            assert(keys[i as int] == T::operator(items@[i as int]@));
            i = i + 1;
        }
        proof {
            if i < items@.len() {
                assert(keys[i as int] == T::operator(items@[i as int]@));
            }
            lemma_place(keys, T::operator(added), i as int);
        }
        let present = i < items.len() && items[i].identifier().same(&identifier);
        if present {
            items.set(i, item);
            assert(views(items@) =~= held.update(i as int, added));
            assert(operators::<T>(views(items@)) =~= keys);
        } else {
            proof {
                lemma_inserted_ascends(keys, T::operator(added), i as int);
            }
            items.insert(i, item);
            assert(views(items@) =~= held.insert(i as int, added));
            assert(operators::<T>(views(items@)) =~= keys.insert(i as int, T::operator(added)));
        }
        assert(views(items@) == put_at::<T>(held, added, i as int));
        assert(is_place(operators::<T>(self@), T::operator(added), i as int));
        proof {
            putting_keeps_the_others::<T>(held, added, i as int);
        }
        ByOperator { items }
    }

    /// The items, in the order of the operators' identifiers.
    pub fn items(&self) -> (items: &Vec<T>)
        ensures
            views(items@) == self@,
            ascending(operators::<T>(views(items@))),
    {
        proof {
            use_type_invariant(self);
        }
        &self.items
    }
}

} // verus!

//! A map from texts to byte strings.

use vstd::prelude::*;
use vstd::utf8::{encode_utf8, encode_utf8_decode_utf8};

use crate::model::{copy_byte_strings, views};
use crate::order::{
    ascending, before, is_before, lemma_ascending_keys_differ, lemma_inserted_ascends,
    lemma_only_at_place, lemma_place,
};

verus! {

/// The map that a list of entries fills, a later entry in the place of an earlier one with the
/// same key.
pub open spec fn map_of(entries: Seq<(Seq<char>, Seq<u8>)>) -> Map<Seq<char>, Seq<u8>>
    decreases entries.len(),
{
    if entries.len() == 0 {
        Map::empty()
    } else {
        map_of(entries.drop_last()).insert(entries.last().0, entries.last().1)
    }
}

/// A map that a list of entries fills has the keys of the entries and no others, and under each key
/// the value of the last entry with that key.
pub proof fn map_holds_the_last_entry(entries: Seq<(Seq<char>, Seq<u8>)>)
    ensures
        forall|key: Seq<char>| #[trigger]
            map_of(entries).contains_key(key) <==> exists|i: int|
                0 <= i < entries.len() && (#[trigger] entries[i]).0 == key,
        forall|i: int|
            0 <= i < entries.len() && (forall|j: int|
                i < j < entries.len() ==> (#[trigger] entries[j]).0 != entries[i].0)
                ==> map_of(entries)[(#[trigger] entries[i]).0] == entries[i].1,
    decreases entries.len(),
{
    if entries.len() > 0 {
        let rest = entries.drop_last();
        let last = entries.len() - 1;
        map_holds_the_last_entry(rest);
        assert forall|key: Seq<char>| #[trigger]
            map_of(entries).contains_key(key) <==> exists|i: int|
                0 <= i < entries.len() && (#[trigger] entries[i]).0 == key by {
            if map_of(entries).contains_key(key) {
                if key == entries.last().0 {
                    assert(entries[last].0 == key);
                } else {
                    assert(map_of(rest).contains_key(key));
                    let i = choose|i: int| 0 <= i < rest.len() && (#[trigger] rest[i]).0 == key;
                    assert(entries[i].0 == key);
                }
            }
            if exists|i: int| 0 <= i < entries.len() && (#[trigger] entries[i]).0 == key {
                let i = choose|i: int| 0 <= i < entries.len() && (#[trigger] entries[i]).0 == key;
                if i < last {
                    assert(rest[i].0 == key);
                    assert(map_of(rest).contains_key(key));
                }
            }
        }
        assert forall|i: int|
            0 <= i < entries.len() && (forall|j: int|
                i < j < entries.len() ==> (#[trigger] entries[j]).0
                    != entries[i].0) implies map_of(entries)[(#[trigger] entries[i]).0]
            == entries[i].1 by {
            if i < last {
                assert(entries[last].0 != entries[i].0);
                assert(rest[i] == entries[i]);
                assert forall|j: int| i < j < rest.len() implies (#[trigger] rest[j]).0
                    != rest[i].0 by {
                    assert(rest[j] == entries[j]);
                }
                assert(map_of(rest)[rest[i].0] == rest[i].1);
            }
        }
    }
}

/// The views of keys and values, in pairs.
pub open spec fn entry_views(entries: Seq<(String, Vec<u8>)>) -> Seq<(Seq<char>, Seq<u8>)> {
    Seq::new(entries.len(), |i: int| (entries[i].0@, entries[i].1@))
}

/// The texts as byte strings, by which they are ordered.
pub open spec fn text_bytes(texts: Seq<Seq<char>>) -> Seq<Seq<u8>> {
    Seq::new(texts.len(), |i: int| encode_utf8(texts[i]))
}

spec fn paired(keys: Seq<Seq<char>>, values: Seq<Seq<u8>>) -> Seq<(Seq<char>, Seq<u8>)> {
    Seq::new(keys.len(), |i: int| (keys[i], values[i]))
}

/// A map from texts to byte strings: the keys ascend, so that none occurs twice.
#[derive(Debug, PartialEq, Eq)]
pub struct ByteMap {
    keys: Vec<String>,
    values: Vec<Vec<u8>>,
}

impl View for ByteMap {
    type V = Map<Seq<char>, Seq<u8>>;

    closed spec fn view(&self) -> Map<Seq<char>, Seq<u8>> {
        map_of(paired(views(self.keys@), views(self.values@)))
    }
}

/// Changing the value of a key that occurs once is inserting it.
proof fn lemma_map_update(entries: Seq<(Seq<char>, Seq<u8>)>, at: int, value: Seq<u8>)
    requires
        0 <= at < entries.len(),
        forall|i: int|
            0 <= i < entries.len() && i != at ==> (#[trigger] entries[i]).0 != entries[at].0,
    ensures
        map_of(entries.update(at, (entries[at].0, value))) == map_of(entries).insert(
            entries[at].0,
            value,
        ),
    decreases entries.len(),
{
    let key = entries[at].0;
    let changed = entries.update(at, (key, value));
    let shorter = entries.drop_last();
    assert(changed.len() == entries.len());
    if at == entries.len() - 1 {
        assert(changed.drop_last() =~= shorter);
        assert(map_of(changed) =~= map_of(entries).insert(key, value));
    } else {
        assert forall|i: int| 0 <= i < shorter.len() && i != at implies (#[trigger] shorter[i]).0
            != shorter[at].0 by {
            assert(shorter[i] == entries[i]);
        }
        lemma_map_update(shorter, at, value);
        assert(changed.drop_last() =~= shorter.update(at, (key, value)));
        assert(entries[entries.len() - 1].0 != key);
        assert(map_of(changed) =~= map_of(entries).insert(key, value));
    }
}

/// Putting an entry anywhere among others without its key is inserting it.
proof fn lemma_map_insert(
    entries: Seq<(Seq<char>, Seq<u8>)>,
    at: int,
    entry: (Seq<char>, Seq<u8>),
)
    requires
        0 <= at <= entries.len(),
        forall|i: int| 0 <= i < entries.len() ==> (#[trigger] entries[i]).0 != entry.0,
    ensures
        map_of(entries.insert(at, entry)) == map_of(entries).insert(entry.0, entry.1),
    decreases entries.len(),
{
    let more = entries.insert(at, entry);
    if at == entries.len() {
        assert(more.drop_last() =~= entries);
    } else {
        let shorter = entries.drop_last();
        assert forall|i: int| 0 <= i < shorter.len() implies (#[trigger] shorter[i]).0
            != entry.0 by {
            assert(shorter[i] == entries[i]);
        }
        lemma_map_insert(shorter, at, entry);
        assert(more.drop_last() =~= shorter.insert(at, entry));
        assert(more.last() == entries.last());
        assert(entries[entries.len() - 1].0 != entry.0);
        assert(map_of(more) =~= map_of(entries).insert(entry.0, entry.1));
    }
}

/// Texts whose bytes are equal are equal.
proof fn lemma_same_text(left: Seq<char>, right: Seq<char>)
    requires
        encode_utf8(left) == encode_utf8(right),
    ensures
        left == right,
{
    encode_utf8_decode_utf8(left);
    encode_utf8_decode_utf8(right);
}

impl Clone for ByteMap {
    fn clone(&self) -> (copy: Self)
        ensures
            copy@ == self@,
    {
        proof {
            use_type_invariant(self);
        }
        let keys = self.keys.clone();
        let values = copy_byte_strings(&self.values);
        assert(views(keys@) =~= views(self.keys@));
        assert(views(values@).len() == values@.len());
        assert(views(self.values@).len() == self.values@.len());
        ByteMap { keys, values }
    }
}

impl ByteMap {
    #[verifier::type_invariant]
    closed spec fn is_map(self) -> bool {
        &&& self.keys@.len() == self.values@.len()
        &&& ascending(text_bytes(views(self.keys@)))
    }

    /// The map without entries.
    pub fn new() -> (map: ByteMap)
        ensures
            map@ == Map::<Seq<char>, Seq<u8>>::empty(),
    {
        ByteMap { keys: Vec::new(), values: Vec::new() }
    }

    /// The map with one more entry, which takes the place of one with the same key.
    pub fn inserted(self, key: String, value: Vec<u8>) -> (map: ByteMap)
        ensures
            map@ == self@.insert(key@, value@),
    {
        proof {
            use_type_invariant(&self);
        }
        let ghost texts = views(self.keys@);
        let ghost ordered = text_bytes(texts);
        let ghost entries = paired(texts, views(self.values@));
        let ghost entry = (key@, value@);
        let mut keys = self.keys;
        let mut values = self.values;
        let mut i: usize = 0;
        while i < keys.len() && is_before(keys[i].as_str().as_bytes(), key.as_str().as_bytes())
            invariant
                i <= keys@.len(),
                texts == views(keys@),
                ordered == text_bytes(texts),
                forall|j: int| 0 <= j < i ==> before(#[trigger] ordered[j], encode_utf8(key@)),
            decreases keys@.len() - i,
        {
            assert(ordered[i as int] == encode_utf8(keys@[i as int]@));
            i = i + 1;
        }
        proof {
            if i < keys@.len() {
                assert(ordered[i as int] == encode_utf8(keys@[i as int]@));
            }
            lemma_place(ordered, encode_utf8(key@), i as int);
        }
        let present = i < keys.len() && keys[i] == key;
        if present {
            values.set(i, value);
            proof {
                lemma_ascending_keys_differ(ordered);
                assert forall|j: int| 0 <= j < entries.len() && j != i implies (
                #[trigger] entries[j]).0 != entries[i as int].0 by {
                    assert(ordered[j] != ordered[i as int]);
                }
                lemma_map_update(entries, i as int, entry.1);
            }
            assert(paired(views(keys@), views(values@)) =~= entries.update(i as int, entry));
        } else {
            proof {
                if i < keys@.len() && ordered[i as int] == encode_utf8(key@) {
                    lemma_same_text(texts[i as int], key@);
                }
                lemma_inserted_ascends(ordered, encode_utf8(key@), i as int);
                assert forall|j: int| 0 <= j < entries.len() implies (#[trigger] entries[j]).0
                    != entry.0 by {
                    if entries[j].0 == entry.0 {
                        assert(ordered[j] == encode_utf8(key@));
                        lemma_only_at_place(ordered, encode_utf8(key@), i as int, j);
                    }
                }
                lemma_map_insert(entries, i as int, entry);
            }
            keys.insert(i, key);
            values.insert(i, value);
            assert(text_bytes(views(keys@)) =~= ordered.insert(i as int, encode_utf8(entry.0)));
            assert(paired(views(keys@), views(values@)) =~= entries.insert(i as int, entry));
        }
        ByteMap { keys, values }
    }

    /// The entries, in the order of their keys.
    pub fn into_entries(self) -> (entries: Vec<(String, Vec<u8>)>)
        ensures
            map_of(entry_views(entries@)) == self@,
            ascending(
                text_bytes(
                    entry_views(entries@).map_values(|entry: (Seq<char>, Seq<u8>)| entry.0),
                ),
            ),
            forall|i: int, j: int|
                0 <= i < j < entries@.len() ==> before(
                    encode_utf8((#[trigger] entries@[i]).0@),
                    encode_utf8((#[trigger] entries@[j]).0@),
                ),
            forall|i: int|
                0 <= i < entries@.len() ==> self@.contains_key((#[trigger] entries@[i]).0@)
                    && self@[entries@[i].0@] == entries@[i].1@,
            forall|key: Seq<char>| #[trigger]
                self@.contains_key(key) ==> exists|i: int|
                    0 <= i < entries@.len() && (#[trigger] entries@[i]).0@ == key,
    {
        proof {
            use_type_invariant(&self);
        }
        let mut entries: Vec<(String, Vec<u8>)> = Vec::new();
        let mut i: usize = 0;
        while i < self.keys.len()
            invariant
                i <= self.keys@.len(),
                self.keys@.len() == self.values@.len(),
                entries@.len() == i,
                forall|j: int|
                    0 <= j < i ==> (#[trigger] entries@[j]).0@ == self.keys@[j]@
                        && entries@[j].1@ == self.values@[j]@,
            decreases self.keys@.len() - i,
        {
            entries.push((self.keys[i].clone(), crate::model::copy_bytes(&self.values[i])));
            i = i + 1;
        }
        assert(entry_views(entries@) =~= paired(views(self.keys@), views(self.values@)));
        assert(entry_views(entries@).map_values(|entry: (Seq<char>, Seq<u8>)| entry.0) =~= views(
            self.keys@,
        ));
        proof {
            let ordered = text_bytes(views(self.keys@));
            let held = entry_views(entries@);
            map_holds_the_last_entry(held);
            lemma_ascending_keys_differ(ordered);
            assert forall|i: int, j: int| 0 <= i < j < entries@.len() implies before(
                encode_utf8((#[trigger] entries@[i]).0@),
                encode_utf8((#[trigger] entries@[j]).0@),
            ) by {
                assert(before(ordered[i], ordered[j]));
            }
            assert forall|i: int| 0 <= i < entries@.len() implies self@.contains_key(
                (#[trigger] entries@[i]).0@,
            ) && self@[entries@[i].0@] == entries@[i].1@ by {
                assert(held[i] == (entries@[i].0@, entries@[i].1@));
                assert forall|j: int| i < j < held.len() implies (#[trigger] held[j]).0
                    != held[i].0 by {
                    assert(ordered[i] != ordered[j]);
                }
                assert(map_of(held).contains_key(held[i].0));
                assert(map_of(held)[held[i].0] == held[i].1);
            }
            assert forall|key: Seq<char>| #[trigger] self@.contains_key(key) implies exists|i: int|
                0 <= i < entries@.len() && (#[trigger] entries@[i]).0@ == key by {
                assert(map_of(held).contains_key(key));
                let i = choose|i: int| 0 <= i < held.len() && (#[trigger] held[i]).0 == key;
                assert(entries@[i].0@ == key);
            }
        }
        entries
    }
}

} // verus!

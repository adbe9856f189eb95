//! The bundle of key tweaks that each operator gets, and its encryption.

use vstd::prelude::*;

use crate::byte_map::{map_holds_the_last_entry, map_of, ByteMap};
use crate::error::{SignerError, SignerErrorView};
use crate::keys::{uncompressed_public_key, Identifier};
use crate::model::{copy_bytes, views};
use crate::signer::shares::{OperatorRecipient, OperatorRecipientView};
use crate::text::{hex_round_trip, hex_text, join};

verus! {

/// What an operator is told of one leaf.
pub trait KeyTweak: View + Sized {
    /// A copy of it.
    fn copy(&self) -> (copy: Self)
        ensures
            copy@ == self@,
    ;
}

/// The identifiers of operators, in order.
pub open spec fn identifiers(recipients: Seq<OperatorRecipientView>) -> Seq<Seq<u8>> {
    Seq::new(recipients.len(), |i: int| recipients[i].identifier)
}

/// The views of a table, row by row.
pub open spec fn table_views<T: View>(rows: Seq<Vec<T>>) -> Seq<Seq<T::V>> {
    Seq::new(rows.len(), |i: int| views(rows[i]@))
}

/// The items of a row at the places that bear an identifier, in order.
pub open spec fn row_part<V>(ids: Seq<Seq<u8>>, row: Seq<V>, id: Seq<u8>) -> Seq<V>
    decreases row.len(),
{
    if row.len() == 0 {
        Seq::empty()
    } else {
        let before = row_part(ids, row.drop_last(), id);
        if ids[row.len() - 1] == id {
            before.push(row.last())
        } else {
            before
        }
    }
}

/// The items of a table at the places that bear an identifier, row after row.
pub open spec fn table_part<V>(ids: Seq<Seq<u8>>, rows: Seq<Seq<V>>, id: Seq<u8>) -> Seq<V>
    decreases rows.len(),
{
    if rows.len() == 0 {
        Seq::empty()
    } else {
        table_part(ids, rows.drop_last(), id) + row_part(ids, rows.last(), id)
    }
}

/// Whether an earlier place bears the same identifier.
pub open spec fn served_before(ids: Seq<Seq<u8>>, k: int) -> bool {
    exists|j: int| 0 <= j < k && #[trigger] ids[j] == ids[k]
}

/// The bundle for the operator at a place, out of a table with a row for each leaf and in it an
/// item for each operator. Operators that share an identifier share a bundle, and the first of
/// them gets it.
pub open spec fn bundle_of<V>(ids: Seq<Seq<u8>>, rows: Seq<Seq<V>>, k: int) -> Seq<V> {
    if served_before(ids, k) {
        Seq::empty()
    } else {
        table_part(ids, rows, ids[k])
    }
}

proof fn lemma_row_part<V>(ids: Seq<Seq<u8>>, row: Seq<V>, k: int)
    requires
        row.len() <= ids.len(),
        0 <= k < ids.len(),
        ids.no_duplicates(),
    ensures
        row_part(ids, row, ids[k]) == if k < row.len() {
            seq![row[k]]
        } else {
            Seq::empty()
        },
    decreases row.len(),
{
    if row.len() > 0 {
        lemma_row_part(ids, row.drop_last(), k);
        if k < row.len() - 1 {
            assert(row.drop_last()[k] == row[k]);
        }
        if k == row.len() - 1 {
            assert(row_part(ids, row, ids[k]) =~= seq![row[k]]);
        }
    }
}

proof fn lemma_table_part<V>(ids: Seq<Seq<u8>>, rows: Seq<Seq<V>>, k: int)
    requires
        0 <= k < ids.len(),
        ids.no_duplicates(),
        forall|i: int| 0 <= i < rows.len() ==> (#[trigger] rows[i]).len() == ids.len(),
    ensures
        table_part(ids, rows, ids[k]) == Seq::new(rows.len(), |i: int| rows[i][k]),
    decreases rows.len(),
{
    if rows.len() > 0 {
        let above = rows.drop_last();
        assert forall|i: int| 0 <= i < above.len() implies (#[trigger] above[i]).len()
            == ids.len() by {
            assert(above[i] == rows[i]);
        }
        lemma_table_part(ids, above, k);
        lemma_row_part(ids, rows.last(), k);
        assert(rows[rows.len() - 1].len() == ids.len());
    }
    assert(table_part(ids, rows, ids[k]) =~= Seq::new(rows.len(), |i: int| rows[i][k]));
}

/// Where no two operators share an identifier, each operator's bundle holds its own item of
/// every leaf, in the order of the leaves, and nothing else.
pub proof fn each_operator_gets_its_own<V>(ids: Seq<Seq<u8>>, rows: Seq<Seq<V>>, k: int)
    requires
        0 <= k < ids.len(),
        ids.no_duplicates(),
        forall|i: int| 0 <= i < rows.len() ==> (#[trigger] rows[i]).len() == ids.len(),
    ensures
        bundle_of(ids, rows, k) == Seq::new(rows.len(), |i: int| rows[i][k]),
{
    lemma_table_part(ids, rows, k);
}

proof fn lemma_filtered_places(places: Seq<int>, count: nat, bears: spec_fn(int) -> bool)
    requires
        forall|p: int| 0 <= p < places.len() ==> 0 <= #[trigger] places[p] < count,
    ensures
        forall|p: int|
            0 <= p < places.filter(bears).len() ==> 0 <= #[trigger] places.filter(bears)[p] < count,
    decreases places.len(),
{
    reveal(Seq::filter);
    if places.len() > 0 {
        let fewer = places.drop_last();
        assert forall|p: int| 0 <= p < fewer.len() implies 0 <= #[trigger] fewer[p] < count by {
            assert(fewer[p] == places[p]);
        }
        lemma_filtered_places(fewer, count, bears);
        let last = places[places.len() - 1];
        let kept = fewer.filter(bears);
        assert(0 <= last < count);
        assert(places.filter(bears) == if bears(last) {
            kept.push(last)
        } else {
            kept
        });
        let all_kept = places.filter(bears);
        assert forall|p: int| 0 <= p < all_kept.len() implies 0 <= #[trigger] all_kept[p]
            < count by {
            if p < kept.len() {
                assert(0 <= kept[p] < count);
                assert(all_kept[p] == kept[p]);
            }
        }
    }
}

/// The part of a row that bears an identifier holds the items at just those places, in order.
pub proof fn parts_hold_the_places_of_an_identifier<V>(
    ids: Seq<Seq<u8>>,
    row: Seq<V>,
    id: Seq<u8>,
)
    ensures
        row_part(ids, row, id) == Seq::new(row.len(), |i: int| i).filter(
            |i: int| ids[i] == id,
        ).map_values(|i: int| row[i]),
    decreases row.len(),
{
    reveal(Seq::filter);
    let bears = |i: int| ids[i] == id;
    let item = |i: int| row[i];
    let places = Seq::new(row.len(), |i: int| i);
    if row.len() == 0 {
        assert(places.filter(bears).map_values(item) =~= Seq::empty());
    } else {
        let shorter = row.drop_last();
        let fewer = Seq::new(shorter.len(), |i: int| i);
        let before = fewer.filter(bears);
        parts_hold_the_places_of_an_identifier(ids, shorter, id);
        assert(places.drop_last() =~= fewer);
        lemma_filtered_places(fewer, shorter.len(), bears);
        assert(before.map_values(|i: int| shorter[i]) =~= before.map_values(item));
        assert(places.last() == row.len() - 1);
        if bears(row.len() - 1) {
            assert(places.filter(bears) == before.push(row.len() - 1));
            assert(before.push(row.len() - 1).map_values(item) =~= before.map_values(item).push(
                row.last(),
            ));
        } else {
            assert(places.filter(bears) == before);
        }
    }
}

/// The part of a table is that of its rows, one after the other.
pub proof fn tables_part_row_by_row<V>(
    ids: Seq<Seq<u8>>,
    above: Seq<Seq<V>>,
    below: Seq<Seq<V>>,
    row: Seq<V>,
    id: Seq<u8>,
)
    ensures
        table_part(ids, above + below, id) == table_part(ids, above, id) + table_part(
            ids,
            below,
            id,
        ),
        table_part(ids, seq![row], id) == row_part(ids, row, id),
        table_part(ids, Seq::<Seq<V>>::empty(), id) == Seq::<V>::empty(),
    decreases below.len(),
{
    let none = Seq::<Seq<V>>::empty();
    assert(table_part(ids, none, id) =~= Seq::<V>::empty());
    assert(seq![row].drop_last() =~= none);
    assert(table_part(ids, seq![row], id) == table_part(ids, seq![row].drop_last(), id) + row_part(
        ids,
        seq![row].last(),
        id,
    ));
    assert(table_part(ids, seq![row], id) =~= row_part(ids, row, id));
    if below.len() == 0 {
        assert(above + below =~= above);
        assert(table_part(ids, below, id) =~= Seq::<V>::empty());
        assert(table_part(ids, above, id) + table_part(ids, below, id) =~= table_part(
            ids,
            above,
            id,
        ));
    } else {
        let shorter = below.drop_last();
        tables_part_row_by_row(ids, above, shorter, row, id);
        assert((above + below).drop_last() =~= above + shorter);
        assert((above + below).last() == below.last());
        assert(table_part(ids, above + below, id) =~= table_part(ids, above, id) + table_part(
            ids,
            below,
            id,
        ));
    }
}

proof fn lemma_row_part_has<V>(ids: Seq<Seq<u8>>, row: Seq<V>, place: int)
    requires
        0 <= place < row.len(),
    ensures
        row_part(ids, row, ids[place]).contains(row[place]),
    decreases row.len(),
{
    let id = ids[place];
    let before = row_part(ids, row.drop_last(), id);
    if place == row.len() - 1 {
        assert(row_part(ids, row, id) == before.push(row.last()));
        assert(before.push(row.last())[before.len() as int] == row[place]);
    } else {
        lemma_row_part_has(ids, row.drop_last(), place);
        let at = choose|at: int| 0 <= at < before.len() && before[at] == row[place];
        assert(row_part(ids, row, id)[at] == row[place]);
    }
}

proof fn lemma_table_part_has<V>(ids: Seq<Seq<u8>>, rows: Seq<Seq<V>>, i: int, place: int)
    requires
        0 <= i < rows.len(),
        0 <= place < rows[i].len(),
    ensures
        table_part(ids, rows, ids[place]).contains(rows[i][place]),
    decreases rows.len(),
{
    let id = ids[place];
    let above = table_part(ids, rows.drop_last(), id);
    let last = row_part(ids, rows.last(), id);
    if i == rows.len() - 1 {
        lemma_row_part_has(ids, rows.last(), place);
        let at = choose|at: int| 0 <= at < last.len() && last[at] == rows[i][place];
        assert((above + last)[above.len() + at] == rows[i][place]);
    } else {
        lemma_table_part_has(ids, rows.drop_last(), i, place);
        let at = choose|at: int| 0 <= at < above.len() && above[at] == rows[i][place];
        assert((above + last)[at] == rows[i][place]);
    }
}

/// Nothing is lost where operators share an identifier: what is meant for any of them is in the
/// bundle of the first with that identifier, and the others' bundles are empty.
pub proof fn first_of_an_identifier_gets_all<V>(
    ids: Seq<Seq<u8>>,
    rows: Seq<Seq<V>>,
    first: int,
    place: int,
)
    requires
        0 <= first <= place < ids.len(),
        ids[first] == ids[place],
        forall|j: int| 0 <= j < first ==> #[trigger] ids[j] != ids[first],
        forall|i: int| 0 <= i < rows.len() ==> (#[trigger] rows[i]).len() == ids.len(),
    ensures
        forall|i: int|
            0 <= i < rows.len() ==> bundle_of(ids, rows, first).contains(
                (#[trigger] rows[i])[place],
            ),
        first < place ==> bundle_of(ids, rows, place).len() == 0,
{
    assert forall|i: int| 0 <= i < rows.len() implies bundle_of(ids, rows, first).contains(
        (#[trigger] rows[i])[place],
    ) by {
        lemma_table_part_has(ids, rows, i, place);
    }
    if first < place {
        assert(ids[first] == ids[place]);
    }
}

/// The bundle for the operator at place `k`.
pub fn operator_bundle<T: KeyTweak>(
    recipients: &Vec<OperatorRecipient>,
    rows: &Vec<Vec<T>>,
    k: usize,
) -> (bundle: Vec<T>)
    requires
        k < recipients@.len(),
        forall|i: int| 0 <= i < rows@.len() ==> (#[trigger] rows@[i])@.len() == recipients@.len(),
    ensures
        views(bundle@) == bundle_of(
            identifiers(views(recipients@)),
            table_views(rows@),
            k as int,
        ),
        (forall|i: int, j: int|
            0 <= i < j < recipients@.len() ==> (#[trigger] recipients@[i]).identifier@ != (
            #[trigger] recipients@[j]).identifier@) ==> {
            &&& bundle@.len() == rows@.len()
            &&& forall|i: int|
                0 <= i < rows@.len() ==> (#[trigger] bundle@[i])@ == rows@[i]@[k as int]@
        },
{
    let ghost ids = identifiers(views(recipients@));
    let ghost table = table_views(rows@);
    let identifier = recipients[k].identifier;
    assert(identifier@ == ids[k as int]);
    let mut bundle: Vec<T> = Vec::new();
    let mut j: usize = 0;
    while j < k
        invariant
            j <= k < recipients@.len(),
            ids == identifiers(views(recipients@)),
            identifier@ == ids[k as int],
            bundle@.len() == 0,
            forall|i: int| 0 <= i < j ==> #[trigger] ids[i] != ids[k as int],
        decreases k - j,
    {
        if recipients[j].identifier.same(&identifier) {
            assert(ids[j as int] == ids[k as int]);
            assert(recipients@[j as int].identifier@ == recipients@[k as int].identifier@);
            assert(views(bundle@) =~= Seq::empty());
            return bundle;
        }
        j = j + 1;
    }
    let mut i: usize = 0;
    assert(table.take(0) =~= Seq::empty());
    assert(views(bundle@) =~= Seq::empty());
    while i < rows.len()
        invariant
            i <= rows@.len(),
            k < recipients@.len(),
            ids == identifiers(views(recipients@)),
            table == table_views(rows@),
            identifier@ == ids[k as int],
            forall|r: int|
                0 <= r < rows@.len() ==> (#[trigger] rows@[r])@.len() == recipients@.len(),
            views(bundle@) == table_part(ids, table.take(i as int), ids[k as int]),
        decreases rows@.len() - i,
    {
        let ghost above = views(bundle@);
        let ghost row = table[i as int];
        assert(row == views(rows@[i as int]@));
        let mut p: usize = 0;
        assert(row.take(0) =~= Seq::empty());
        assert(above + row_part(ids, row.take(0), ids[k as int]) =~= above);
        while p < rows[i].len()
            invariant
                i < rows@.len(),
                p <= rows@[i as int]@.len(),
                rows@[i as int]@.len() == recipients@.len(),
                k < recipients@.len(),
                ids == identifiers(views(recipients@)),
                identifier@ == ids[k as int],
                row == views(rows@[i as int]@),
                views(bundle@) == above + row_part(ids, row.take(p as int), ids[k as int]),
            decreases rows@[i as int]@.len() - p,
        {
            let ghost before = bundle@;
            assert(row.take(p + 1).drop_last() =~= row.take(p as int));
            assert(ids[p as int] == recipients@[p as int].identifier@);
            if recipients[p].identifier.same(&identifier) {
                let item = rows[i][p].copy();
                bundle.push(item);
                assert(views(bundle@) =~= views(before).push(row[p as int]));
                assert((above + row_part(ids, row.take(p as int), ids[k as int])).push(
                    row[p as int],
                ) =~= above + row_part(ids, row.take(p as int), ids[k as int]).push(
                    row[p as int],
                ));
            }
            p = p + 1;
        }
        assert(row.take(p as int) =~= row);
        assert(table.take(i + 1).drop_last() =~= table.take(i as int));
        i = i + 1;
    }
    assert(table.take(i as int) =~= table);
    proof {
        if forall|i: int, j: int|
            0 <= i < j < recipients@.len() ==> (#[trigger] recipients@[i]).identifier@ != (
            #[trigger] recipients@[j]).identifier@ {
            assert forall|a: int, b: int|
                0 <= a < ids.len() && 0 <= b < ids.len() && a != b implies ids[a] != ids[b] by {
                assert(ids[a] == recipients@[a].identifier@);
                assert(ids[b] == recipients@[b].identifier@);
            }
            assert forall|r: int| 0 <= r < table.len() implies (#[trigger] table[r]).len()
                == ids.len() by {
                assert(rows@[r]@.len() == recipients@.len());
            }
            each_operator_gets_its_own(ids, table, k as int);
            assert(views(bundle@).len() == bundle@.len());
            assert forall|r: int| 0 <= r < rows@.len() implies (#[trigger] bundle@[r])@
                == rows@[r]@[k as int]@ by {
                assert(views(bundle@)[r] == table[r][k as int]);
                assert(rows@[r]@.len() == recipients@.len());
            }
        }
    }
    bundle
}

/// The encrypted bundle of an operator.
#[derive(Debug, PartialEq, Eq)]
pub struct OperatorPackage {
    pub operator_identifier: Identifier,
    pub encrypted_package: Vec<u8>,
}

/// The view of an `OperatorPackage`.
pub struct OperatorPackageView {
    pub operator_identifier: Seq<u8>,
    pub encrypted_package: Seq<u8>,
}

impl View for OperatorPackage {
    type V = OperatorPackageView;

    open spec fn view(&self) -> OperatorPackageView {
        OperatorPackageView {
            operator_identifier: self.operator_identifier@,
            encrypted_package: self.encrypted_package@,
        }
    }
}

/// Hands on the answer of an encryption to an operator's key.
pub fn encrypted_for_operator(answer: Result<Vec<u8>, String>) -> (result: Result<
    Vec<u8>,
    SignerError,
>)
    ensures
        match (answer, result) {
            (Ok(ciphertext), Ok(handed)) => handed == ciphertext,
            (Err(message), Err(error)) => error@ == SignerErrorView::Generic(
                "ECIES encryption failed: "@ + message@,
            ),
            _ => false,
        },
{
    match answer {
        Ok(ciphertext) => Ok(ciphertext),
        Err(message) => Err(
            SignerError::Generic(join("ECIES encryption failed: ", message.as_str())),
        ),
    }
}

/// A bundle to encode and to encrypt to a public key, which is given uncompressed.
pub struct BundleToEncrypt<T> {
    pub public_key: Vec<u8>,
    pub leaves: Vec<T>,
}

/// The bundles of all operators, some of which are encrypted.
pub struct PackageRun<T> {
    pub recipients: Vec<OperatorRecipient>,
    /// A row for each leaf, and in it an item for each operator.
    pub rows: Vec<Vec<T>>,
    pub packages: Vec<OperatorPackage>,
}

impl<T: KeyTweak> PackageRun<T> {
    /// Whether every row has an item for each operator, and each package is for the operator at
    /// its place.
    pub open spec fn wf(self) -> bool {
        &&& forall|i: int|
            0 <= i < self.rows@.len() ==> (#[trigger] self.rows@[i])@.len()
                == self.recipients@.len()
        &&& self.packages@.len() <= self.recipients@.len()
        &&& forall|i: int|
            0 <= i < self.packages@.len() ==> (#[trigger] self.packages@[i]).operator_identifier@
                == self.recipients@[i].identifier@
    }

    /// The next bundle to encrypt.
    pub fn next(&self) -> (bundle: Option<BundleToEncrypt<T>>)
        requires
            self.wf(),
        ensures
            match bundle {
                Some(next) => {
                    let k = self.packages@.len() as int;
                    &&& k < self.recipients@.len()
                    &&& next.public_key@ == uncompressed_public_key(
                        self.recipients@[k].public_key@,
                    )
                    &&& views(next.leaves@) == bundle_of(
                        identifiers(views(self.recipients@)),
                        table_views(self.rows@),
                        k,
                    )
                },
                None => self.packages@.len() == self.recipients@.len(),
            },
            bundle is Some && (forall|i: int, j: int|
                0 <= i < j < self.recipients@.len() ==> (#[trigger] self.recipients@[i]).identifier@
                    != (#[trigger] self.recipients@[j]).identifier@) ==> {
                let k = self.packages@.len() as int;
                let next = bundle->Some_0;
                &&& next.leaves@.len() == self.rows@.len()
                &&& forall|i: int|
                    0 <= i < self.rows@.len() ==> (#[trigger] next.leaves@[i])@
                        == self.rows@[i]@[k]@
            },
    {
        let k: usize = self.packages.len();
        if k == self.recipients.len() {
            return None;
        }
        Some(
            BundleToEncrypt {
                public_key: self.recipients[k].public_key.serialize_uncompressed(),
                leaves: operator_bundle(&self.recipients, &self.rows, k),
            },
        )
    }

    /// Takes the answer of the encryption of that bundle.
    pub fn encrypted(self, answer: Result<Vec<u8>, String>) -> (result: Result<
        PackageRun<T>,
        SignerError,
    >)
        requires
            self.wf(),
            self.packages@.len() < self.recipients@.len(),
        ensures
            match (answer, result) {
                (Ok(ciphertext), Ok(next)) => {
                    &&& next.wf()
                    &&& next.packages@.len() == self.packages@.len() + 1
                    &&& next.recipients == self.recipients
                    &&& next.rows == self.rows
                    &&& views(next.packages@) == views(self.packages@).push(
                        OperatorPackageView {
                            operator_identifier:
                                self.recipients@[self.packages@.len() as int].identifier@,
                            encrypted_package: ciphertext@,
                        },
                    )
                },
                (Err(message), Err(error)) => error@ == SignerErrorView::Generic(
                    "ECIES encryption failed: "@ + message@,
                ),
                _ => false,
            },
            answer is Ok <==> result is Ok,
            result matches Ok(next) ==> {
                let k = self.packages@.len() as int;
                &&& next.packages@.take(k) == self.packages@
                &&& next.packages@[k].operator_identifier@ == self.recipients@[k].identifier@
                &&& next.packages@[k].encrypted_package@ == answer->Ok_0@
            },
    {
        let ciphertext = match encrypted_for_operator(answer) {
            Ok(ciphertext) => ciphertext,
            Err(error) => return Err(error),
        };
        let mut next = self;
        let k: usize = next.packages.len();
        let package = OperatorPackage {
            operator_identifier: next.recipients[k].identifier,
            encrypted_package: ciphertext,
        };
        let ghost added = package@;
        next.packages.push(package);
        assert(views(next.packages@) =~= views(self.packages@).push(added));
        assert(next.packages@.take(k as int) =~= self.packages@);
        Ok(next)
    }
}

/// The packages by the identifiers of their operators in hexadecimal.
pub open spec fn package_entries(packages: Seq<OperatorPackageView>) -> Seq<
    (Seq<char>, Seq<u8>),
> {
    Seq::new(
        packages.len(),
        |i: int| (hex_text(packages[i].operator_identifier), packages[i].encrypted_package),
    )
}

/// The packages by the identifiers of their operators in hexadecimal.
pub fn package_map(packages: &Vec<OperatorPackage>) -> (map: ByteMap)
    ensures
        map@ == map_of(package_entries(views(packages@))),
        forall|k: int|
            0 <= k < packages@.len() && (forall|j: int|
                k < j < packages@.len() ==> (#[trigger] packages@[j]).operator_identifier@
                    != packages@[k].operator_identifier@) ==> map@.contains_pair(
                hex_text((#[trigger] packages@[k]).operator_identifier@),
                packages@[k].encrypted_package@,
            ),
        forall|name: Seq<char>| #[trigger]
            map@.contains_key(name) ==> exists|k: int|
                0 <= k < packages@.len() && hex_text(
                    (#[trigger] packages@[k]).operator_identifier@,
                ) == name,
{
    let ghost entries = package_entries(views(packages@));
    let mut map = ByteMap::new();
    let mut i: usize = 0;
    assert(entries.take(0) =~= Seq::empty());
    while i < packages.len()
        invariant
            i <= packages@.len(),
            entries == package_entries(views(packages@)),
            map@ == map_of(entries.take(i as int)),
        decreases packages@.len() - i,
    {
        let package = &packages[i];
        map = map.inserted(
            package.operator_identifier.to_hex(),
            copy_bytes(&package.encrypted_package),
        );
        assert(entries.take(i + 1).drop_last() =~= entries.take(i as int));
        i = i + 1;
    }
    assert(entries.take(i as int) =~= entries);
    proof {
        map_holds_the_last_entry(entries);
        assert forall|k: int|
            0 <= k < packages@.len() && (forall|j: int|
                k < j < packages@.len() ==> (#[trigger] packages@[j]).operator_identifier@
                    != packages@[k].operator_identifier@) implies map@.contains_pair(
            hex_text((#[trigger] packages@[k]).operator_identifier@),
            packages@[k].encrypted_package@,
        ) by {
            assert forall|j: int| k < j < entries.len() implies (#[trigger] entries[j]).0
                != entries[k].0 by {
                assert(packages@[j].operator_identifier@ != packages@[k].operator_identifier@);
                hex_round_trip(packages@[j].operator_identifier@);
                hex_round_trip(packages@[k].operator_identifier@);
            }
            assert(map@.contains_key(entries[k].0));
            assert(map@[entries[k].0] == entries[k].1);
        }
        assert forall|name: Seq<char>| #[trigger] map@.contains_key(name) implies exists|k: int|
            0 <= k < packages@.len() && hex_text((#[trigger] packages@[k]).operator_identifier@)
                == name by {
            let k = choose|k: int| 0 <= k < entries.len() && (#[trigger] entries[k]).0 == name;
            assert(hex_text(packages@[k].operator_identifier@) == name);
        }
    }
    map
}

} // verus!

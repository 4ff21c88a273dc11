//! Sequences of records that are told apart by a text identifier.
//!
//! The registry of scanners and the store of jobs are both such sequences:
//! no identifier occurs twice, a record put under an identifier that is taken
//! replaces the one that holds it and keeps its place, and a record under a
//! new identifier goes to the end.

use vstd::prelude::*;

verus! {

pub type Text = Seq<char>;

/// The views of a sequence of strings.
pub open spec fn text_views(texts: Seq<String>) -> Seq<Text> {
    Seq::new(texts.len(), |i: int| texts[i]@)
}

/// A record with an identifier.
pub trait Keyed {
    spec fn key(self) -> Text;
}

/// The identifiers of the records, in their order.
pub open spec fn keys<T: Keyed>(items: Seq<T>) -> Seq<Text> {
    Seq::new(items.len(), |i: int| items[i].key())
}

/// No identifier occurs twice.
pub open spec fn distinct<T: Keyed>(items: Seq<T>) -> bool {
    keys(items).no_duplicates()
}

/// Some record has the identifier.
pub open spec fn holds<T: Keyed>(items: Seq<T>, id: Text) -> bool {
    keys(items).contains(id)
}

/// The place of the record with the identifier, where there is one.
pub open spec fn place<T: Keyed>(items: Seq<T>, id: Text) -> int {
    keys(items).index_of(id)
}

/// The record with the identifier, where there is one.
pub open spec fn item_at<T: Keyed>(items: Seq<T>, id: Text) -> T {
    items[place(items, id)]
}

/// The records after `item` was put in: in the place of the record with its
/// identifier, or at the end.
pub open spec fn upsert<T: Keyed>(items: Seq<T>, item: T) -> Seq<T> {
    if holds(items, item.key()) {
        items.update(place(items, item.key()), item)
    } else {
        items.push(item)
    }
}

/// The records after each of `more` was put in, first to last.
pub open spec fn upsert_all<T: Keyed>(items: Seq<T>, more: Seq<T>) -> Seq<T>
    decreases more.len(),
{
    if more.len() == 0 {
        items
    } else {
        upsert(upsert_all(items, more.drop_last()), more.last())
    }
}

/// The records without the one that has the identifier.
pub open spec fn without<T: Keyed>(items: Seq<T>, id: Text) -> Seq<T> {
    if holds(items, id) {
        items.remove(place(items, id))
    } else {
        items
    }
}

/// The records with `item` in the place of the one that has the identifier
/// `id`; unchanged where none has it.
pub open spec fn replaced<T: Keyed>(items: Seq<T>, id: Text, item: T) -> Seq<T> {
    if holds(items, id) {
        items.update(place(items, id), item)
    } else {
        items
    }
}

/// Among distinct records, the place of a record's identifier is the
/// record's own place.
pub proof fn lemma_place<T: Keyed>(items: Seq<T>, i: int)
    requires
        distinct(items),
        0 <= i < items.len(),
    ensures
        holds(items, items[i].key()),
        place(items, items[i].key()) == i,
        item_at(items, items[i].key()) == items[i],
{
    let ids = keys(items);
    assert(ids[i] == items[i].key());
    let j = place(items, items[i].key());
    assert(0 <= j < ids.len() && ids[j] == items[i].key());
}

/// An identifier that no record has is not held.
pub proof fn lemma_absent<T: Keyed>(items: Seq<T>, id: Text)
    requires
        forall|k: int| 0 <= k < items.len() ==> (#[trigger] items[k]).key() != id,
    ensures
        !holds(items, id),
{
    let ids = keys(items);
    if ids.contains(id) {
        let j = choose|j: int| 0 <= j < ids.len() && ids[j] == id;
        assert(items[j].key() == id);
    }
}

/// A held identifier has a place, and the record there has the identifier.
pub proof fn lemma_held<T: Keyed>(items: Seq<T>, id: Text)
    requires
        holds(items, id),
    ensures
        0 <= place(items, id) < items.len(),
        item_at(items, id).key() == id,
{
    let ids = keys(items);
    let j = place(items, id);
    assert(0 <= j < ids.len() && ids[j] == id);
}

/// Putting a record in place of one with the same identifier changes no
/// identifier.
pub proof fn lemma_update_keeps_keys<T: Keyed>(items: Seq<T>, i: int, item: T)
    requires
        0 <= i < items.len(),
        item.key() == items[i].key(),
    ensures
        keys(items.update(i, item)) == keys(items),
{
    assert(keys(items.update(i, item)) =~= keys(items));
}

/// Putting a record in keeps the records distinct, and the record is then
/// the one held under its identifier.
pub proof fn lemma_upsert_distinct<T: Keyed>(items: Seq<T>, item: T)
    requires
        distinct(items),
    ensures
        distinct(upsert(items, item)),
        holds(upsert(items, item), item.key()),
        item_at(upsert(items, item), item.key()) == item,
{
    let out = upsert(items, item);
    if holds(items, item.key()) {
        lemma_held(items, item.key());
        let i = place(items, item.key());
        lemma_update_keeps_keys(items, i, item);
        lemma_place(out, i);
    } else {
        let ids = keys(items);
        assert(keys(out) =~= ids.push(item.key()));
        assert forall|a: int, b: int|
            0 <= a < keys(out).len() && 0 <= b < keys(out).len() && a != b implies keys(out)[a]
            != keys(out)[b] by {
            if a < ids.len() {
                assert(ids[a] == keys(out)[a]);
            }
            if b < ids.len() {
                assert(ids[b] == keys(out)[b]);
            }
        }
        lemma_place(out, items.len() as int);
    }
}

/// Putting records in one after another keeps the records distinct.
pub proof fn lemma_upsert_all_distinct<T: Keyed>(items: Seq<T>, more: Seq<T>)
    requires
        distinct(items),
    ensures
        distinct(upsert_all(items, more)),
    decreases more.len(),
{
    if more.len() > 0 {
        lemma_upsert_all_distinct(items, more.drop_last());
        lemma_upsert_distinct(upsert_all(items, more.drop_last()), more.last());
    }
}

/// Taking a record out keeps the records distinct, and its identifier is
/// then held by none.
pub proof fn lemma_without_distinct<T: Keyed>(items: Seq<T>, id: Text)
    requires
        distinct(items),
    ensures
        distinct(without(items, id)),
        !holds(without(items, id), id),
{
    let out = without(items, id);
    if holds(items, id) {
        lemma_held(items, id);
        let i = place(items, id);
        let ids = keys(items);
        assert(keys(out) =~= ids.remove(i));
        assert forall|k: int| 0 <= k < out.len() implies (#[trigger] out[k]).key() != id by {
            if k < i {
                assert(ids[k] == out[k].key());
            } else {
                assert(ids[k + 1] == out[k].key());
            }
        }
        lemma_absent(out, id);
    }
}

/// A record put in the place of the one with its identifier changes no
/// identifier and is then the one held under it.
pub proof fn lemma_replaced_distinct<T: Keyed>(items: Seq<T>, id: Text, item: T)
    requires
        distinct(items),
        item.key() == id,
    ensures
        distinct(replaced(items, id, item)),
        keys(replaced(items, id, item)) == keys(items),
        holds(items, id) ==> item_at(replaced(items, id, item), id) == item,
{
    if holds(items, id) {
        lemma_held(items, id);
        let i = place(items, id);
        lemma_update_keeps_keys(items, i, item);
        lemma_place(replaced(items, id, item), i);
    }
}

/// Putting a record in takes no identifier away.
pub proof fn lemma_upsert_keeps<T: Keyed>(items: Seq<T>, item: T, id: Text)
    requires
        holds(items, id),
    ensures
        holds(upsert(items, item), id),
{
    lemma_held(items, id);
    let i = place(items, id);
    let out = upsert(items, item);
    if holds(items, item.key()) {
        lemma_held(items, item.key());
        let j = place(items, item.key());
        if i == j {
            assert(keys(out)[i] == id);
        } else {
            assert(keys(out)[i] == id);
        }
    } else {
        assert(keys(out)[i] == id);
    }
}

/// Taking a record out takes no other identifier away.
pub proof fn lemma_without_keeps<T: Keyed>(items: Seq<T>, id: Text, other: Text)
    requires
        holds(items, other),
        other != id,
    ensures
        holds(without(items, id), other),
{
    lemma_held(items, other);
    let i = place(items, other);
    let out = without(items, id);
    if holds(items, id) {
        lemma_held(items, id);
        let j = place(items, id);
        if i < j {
            assert(keys(out)[i] == other);
        } else {
            assert(keys(out)[i - 1] == other);
        }
    }
}

/// Records put into an empty sequence under identifiers that are all
/// different stay as they are.
pub proof fn lemma_upsert_all_fresh<T: Keyed>(more: Seq<T>)
    requires
        distinct(more),
    ensures
        upsert_all(Seq::<T>::empty(), more) == more,
    decreases more.len(),
{
    if more.len() > 0 {
        let front = more.drop_last();
        assert(keys(front) =~= keys(more).drop_last());
        lemma_upsert_all_fresh(front);
        assert forall|k: int| 0 <= k < front.len() implies (#[trigger] front[k]).key()
            != more.last().key() by {
            assert(keys(more)[k] == front[k].key());
            assert(keys(more)[more.len() - 1] == more.last().key());
        }
        lemma_absent(front, more.last().key());
        assert(front.push(more.last()) =~= more);
    } else {
        assert(more =~= Seq::<T>::empty());
    }
}

} // verus!

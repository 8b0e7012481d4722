//! Merge-by-key semantics over sequences of keyed records.
//!
//! Every cached entity kind is a sequence of records with a stable identity
//! key. This module defines the mathematical model of such a collection — a
//! map from key to record — and the two verified operations every store is
//! built from: merge-upsert (insert-or-replace by key, applied to a whole
//! batch, later entries winning) and remove-by-key.

use vstd::prelude::*;

verus! {

/// A record with a stable identity key.
pub trait Keyed: Sized {
    /// The executable key type: an identifier newtype, a plain integer, or a
    /// composite key record.
    type Key: View;

    /// The identity key of this record, at the specification level.
    spec fn key(self) -> <Self::Key as View>::V;

    /// Whether this record's key equals the given key value.
    fn key_matches(&self, key: &Self::Key) -> (b: bool)
        ensures
            b == (self.key() == key@),
    ;

    /// Whether the two records share one identity key.
    fn same_key(&self, other: &Self) -> (b: bool)
        ensures
            b == (self.key() == other.key()),
    ;
}

/// No two records of the sequence share an identity key.
pub open spec fn keys_unique<T: Keyed>(s: Seq<T>) -> bool {
    forall|i: int, j: int| 0 <= i < j < s.len() ==> s[i].key() != s[j].key()
}

/// The content of a collection as a map from key to record; when a key
/// occurs more than once, the later record wins.
pub open spec fn map_of<T: Keyed>(s: Seq<T>) -> Map<<T::Key as View>::V, T>
    decreases s.len(),
{
    if s.len() == 0 {
        Map::empty()
    } else {
        map_of(s.drop_last()).insert(s.last().key(), s.last())
    }
}

/// The content after merging `batch` into content `m`: every batch record
/// replaces the record sharing its key, or is added when no such key exists.
pub open spec fn upsert_model<T: Keyed>(
    m: Map<<T::Key as View>::V, T>,
    batch: Seq<T>,
) -> Map<<T::Key as View>::V, T> {
    m.union_prefer_right(map_of(batch))
}

/// The set of spec-level key values named by a sequence of executable keys.
pub open spec fn key_view_set<K: View>(keys: Seq<K>) -> Set<K::V> {
    Set::new(|kv: K::V| exists|i: int| 0 <= i < keys.len() && keys[i]@ == kv)
}

/// The records of `s` whose key is not in `ks`, in their original order.
pub open spec fn removed_seq<T: Keyed>(s: Seq<T>, ks: Set<<T::Key as View>::V>) -> Seq<T> {
    s.filter(|t: T| !ks.contains(t.key()))
}

/// A key is in the content map exactly when some record of the sequence
/// carries it.
pub proof fn lemma_map_of_contains<T: Keyed>(s: Seq<T>, k: <T::Key as View>::V)
    ensures
        map_of(s).dom().contains(k) <==> exists|i: int| 0 <= i < s.len() && s[i].key() == k,
    decreases s.len(),
{
    if s.len() == 0 {
    } else {
        lemma_map_of_contains(s.drop_last(), k);
        if map_of(s).dom().contains(k) {
            if k == s.last().key() {
                assert(s[s.len() - 1].key() == k);
            } else {
                let i = choose|i: int| 0 <= i < s.drop_last().len() && s.drop_last()[i].key() == k;
                assert(s[i].key() == k);
            }
        }
        if exists|i: int| 0 <= i < s.len() && s[i].key() == k {
            let i = choose|i: int| 0 <= i < s.len() && s[i].key() == k;
            if i < s.len() - 1 {
                assert(s.drop_last()[i].key() == k);
            }
        }
    }
}

/// Dropping the last record keeps the keys unique.
pub proof fn lemma_keys_unique_drop_last<T: Keyed>(s: Seq<T>)
    requires
        keys_unique(s),
        s.len() > 0,
    ensures
        keys_unique(s.drop_last()),
{
    assert forall|i: int, j: int| 0 <= i < j < s.drop_last().len() implies s.drop_last()[i].key()
        != s.drop_last()[j].key() by {
        assert(s.drop_last()[i] == s[i]);
        assert(s.drop_last()[j] == s[j]);
    }
}

/// In a unique-keyed sequence, the content map sends each record's key to
/// that record.
pub proof fn lemma_map_of_index<T: Keyed>(s: Seq<T>, i: int)
    requires
        keys_unique(s),
        0 <= i < s.len(),
    ensures
        map_of(s).dom().contains(s[i].key()),
        map_of(s)[s[i].key()] == s[i],
    decreases s.len(),
{
    if i == s.len() - 1 {
    } else {
        lemma_keys_unique_drop_last(s);
        assert(s.drop_last()[i] == s[i]);
        lemma_map_of_index(s.drop_last(), i);
        assert(s[i].key() != s.last().key());
    }
}

/// Appending a record inserts it into the content map.
pub proof fn lemma_map_of_push<T: Keyed>(s: Seq<T>, item: T)
    ensures
        map_of(s.push(item)) == map_of(s).insert(item.key(), item),
{
    assert(s.push(item).drop_last() =~= s);
    assert(s.push(item).last() == item);
}

/// Replacing the record at a matching key position updates the content map
/// at that key.
pub proof fn lemma_map_of_update<T: Keyed>(s: Seq<T>, j: int, item: T)
    requires
        keys_unique(s),
        0 <= j < s.len(),
        s[j].key() == item.key(),
    ensures
        map_of(s.update(j, item)) == map_of(s).insert(item.key(), item),
    decreases s.len(),
{
    let t = s.update(j, item);
    if j == s.len() - 1 {
        assert(t.drop_last() =~= s.drop_last());
        assert(t.last() == item);
        assert(map_of(t) =~= map_of(s).insert(item.key(), item));
    } else {
        assert(t.drop_last() =~= s.drop_last().update(j, item));
        assert(t.last() == s.last());
        lemma_keys_unique_drop_last(s);
        assert(s.drop_last()[j] == s[j]);
        lemma_map_of_update(s.drop_last(), j, item);
        assert(s[j].key() != s.last().key());
        assert(map_of(t) =~= map_of(s).insert(item.key(), item));
    }
}

/// Filtering a unique-keyed sequence by "key not in `ks`" keeps the keys
/// unique and removes exactly the keys of `ks` from the content map.
pub proof fn lemma_removed_model<T: Keyed>(s: Seq<T>, ks: Set<<T::Key as View>::V>)
    requires
        keys_unique(s),
    ensures
        keys_unique(removed_seq(s, ks)),
        map_of(removed_seq(s, ks)) == map_of(s).remove_keys(ks),
    decreases s.len(),
{
    reveal_with_fuel(Seq::filter, 2);
    let pred = |t: T| !ks.contains(t.key());
    if s.len() == 0 {
        assert(removed_seq(s, ks) =~= s);
        assert(map_of(removed_seq(s, ks)) =~= map_of(s).remove_keys(ks));
    } else {
        let d = s.drop_last();
        let last = s.last();
        lemma_keys_unique_drop_last(s);
        lemma_removed_model(d, ks);
        lemma_map_of_contains(d, last.key());
        assert(!map_of(d).dom().contains(last.key()));
        if pred(last) {
            assert(removed_seq(s, ks) == removed_seq(d, ks).push(last));
            lemma_map_of_push(removed_seq(d, ks), last);
            assert(keys_unique(removed_seq(s, ks))) by {
                let r = removed_seq(d, ks);
                assert forall|i: int, j: int|
                    0 <= i < j < r.push(last).len() implies r.push(last)[i].key() != r.push(
                    last,
                )[j].key() by {
                    if j < r.len() {
                    } else {
                        assert(r.push(last)[i] == r[i]);
                        lemma_map_of_index(r, i);
                        assert(map_of(r).remove_keys(ks) == map_of(d).remove_keys(ks));
                        assert(map_of(d).dom().contains(r[i].key())) by {
                            assert(map_of(r).dom().contains(r[i].key()));
                            assert(map_of(r) == map_of(d).remove_keys(ks));
                        }
                    }
                }
            }
            assert(map_of(removed_seq(s, ks)) =~= map_of(s).remove_keys(ks));
        } else {
            assert(removed_seq(s, ks) == removed_seq(d, ks));
            assert(map_of(removed_seq(s, ks)) =~= map_of(s).remove_keys(ks));
        }
    }
}

/// A filter that keeps every record returns the sequence unchanged.
pub proof fn lemma_filter_all_kept<T>(s: Seq<T>, pred: spec_fn(T) -> bool)
    requires
        forall|i: int| 0 <= i < s.len() ==> pred(s[i]),
    ensures
        s.filter(pred) == s,
    decreases s.len(),
{
    reveal_with_fuel(Seq::filter, 2);
    if s.len() == 0 {
        assert(s.filter(pred) =~= s);
    } else {
        lemma_filter_all_kept(s.drop_last(), pred);
        assert(pred(s.last()));
        assert(s.filter(pred) =~= s);
    }
}

/// Finds the index of a record sharing `item`'s key, if any.
fn find_same_key<T: Keyed>(v: &Vec<T>, item: &T) -> (r: Option<usize>)
    ensures
        match r {
            Some(j) => j < v@.len() && v@[j as int].key() == item.key(),
            None => forall|i: int| 0 <= i < v@.len() ==> v@[i].key() != item.key(),
        },
{
    let mut j: usize = 0;
    while j < v.len()
        invariant
            j <= v@.len(),
            forall|i: int| 0 <= i < j ==> v@[i].key() != item.key(),
        decreases v@.len() - j,
    {
        if v[j].same_key(item) {
            return Some(j);
        }
        j += 1;
    }
    None
}

/// Inserts `item`, replacing the record that shares its key if one exists.
fn replace_or_push<T: Keyed>(v: &mut Vec<T>, item: T)
    requires
        keys_unique(old(v)@),
    ensures
        keys_unique(final(v)@),
        map_of(final(v)@) == map_of(old(v)@).insert(item.key(), item),
{
    let ghost s0 = v@;
    let ghost k = item.key();
    match find_same_key(v, &item) {
        Some(j) => {
            let _replaced = v.remove(j);
            v.insert(j, item);
            proof {
                assert(v@ =~= s0.update(j as int, item));
                lemma_map_of_update(s0, j as int, item);
                assert forall|a: int| 0 <= a < v@.len() implies v@[a].key() == s0[a].key() by {
                    if a != j {
                        assert(v@[a] == s0[a]);
                    }
                }
                assert(keys_unique(v@));
            }
        },
        None => {
            v.push(item);
            proof {
                lemma_map_of_push(s0, item);
                assert forall|a: int, b: int|
                    0 <= a < b < v@.len() implies v@[a].key() != v@[b].key() by {
                    if b < s0.len() {
                        assert(v@[a] == s0[a] && v@[b] == s0[b]);
                    } else {
                        assert(v@[a] == s0[a] && v@[b] == item);
                    }
                }
            }
        },
    }
}

/// Merges `new_items` into `existing` by identity key: each batch record
/// replaces the record sharing its key or is inserted, later batch entries
/// winning. The order of the surviving records is unspecified.
///
/// An empty batch leaves the collection untouched.
pub fn upsert_by_key<T: Keyed>(existing: &mut Vec<T>, new_items: Vec<T>)
    requires
        keys_unique(old(existing)@),
    ensures
        keys_unique(final(existing)@),
        map_of(final(existing)@) == upsert_model(map_of(old(existing)@), new_items@),
        new_items@.len() == 0 ==> final(existing)@ == old(existing)@,
{
    let ghost batch = new_items@;
    let ghost orig = old(existing)@;
    let mut items = new_items;
    proof {
        assert(items@ =~= batch.subrange(batch.len() - items@.len(), batch.len() as int));
        assert(batch.take(batch.len() - items@.len()) =~= Seq::<T>::empty());
        assert(map_of(existing@) =~= upsert_model(
            map_of(orig),
            batch.take(batch.len() - items@.len()),
        ));
    }
    while items.len() > 0
        invariant
            keys_unique(existing@),
            items@.len() <= batch.len(),
            items@ == batch.subrange(batch.len() - items@.len(), batch.len() as int),
            map_of(existing@) == upsert_model(
                map_of(orig),
                batch.take(batch.len() - items@.len()),
            ),
            batch.len() == 0 ==> existing@ == orig,
        decreases items@.len(),
    {
        let ghost done = batch.len() - items@.len();
        let item = items.remove(0);
        proof {
            assert(item == batch[done]);
            assert(items@ =~= batch.subrange(done + 1, batch.len() as int));
        }
        replace_or_push(existing, item);
        proof {
            assert(batch.take(done + 1) =~= batch.take(done).push(item));
            lemma_map_of_push(batch.take(done), item);
            assert(upsert_model(map_of(orig), batch.take(done + 1)) =~= upsert_model(
                map_of(orig),
                batch.take(done),
            ).insert(item.key(), item));
        }
    }
    proof {
        assert(batch.take(batch.len() - items@.len()) =~= batch);
    }
}

/// Whether some key of `keys` names `item`'s identity key.
fn contains_key<T: Keyed>(keys: &Vec<T::Key>, item: &T) -> (b: bool)
    ensures
        b == key_view_set(keys@).contains(item.key()),
{
    let mut l: usize = 0;
    while l < keys.len()
        invariant
            l <= keys@.len(),
            forall|i: int| 0 <= i < l ==> keys@[i]@ != item.key(),
        decreases keys@.len() - l,
    {
        if item.key_matches(&keys[l]) {
            proof {
                assert(keys@[l as int]@ == item.key());
            }
            return true;
        }
        l += 1;
    }
    proof {
        assert(!key_view_set(keys@).contains(item.key()));
    }
    false
}

/// Deletes every record whose identity key appears in `keys`; keys that name
/// no record are silently ignored. The surviving records keep their order.
///
/// An empty key batch leaves the collection untouched.
pub fn remove_by_key<T: Keyed>(existing: &mut Vec<T>, keys: &Vec<T::Key>)
    requires
        keys_unique(old(existing)@),
    ensures
        final(existing)@ == removed_seq(old(existing)@, key_view_set(keys@)),
        keys_unique(final(existing)@),
        map_of(final(existing)@) == map_of(old(existing)@).remove_keys(key_view_set(keys@)),
        keys@.len() == 0 ==> final(existing)@ == old(existing)@,
{
    let ghost orig = old(existing)@;
    let ghost ks = key_view_set(keys@);
    let ghost n = orig.len() as int;
    let ghost pred = |t: T| !ks.contains(t.key());
    let mut work: Vec<T> = Vec::new();
    core::mem::swap(existing, &mut work);
    let mut out: Vec<T> = Vec::new();
    proof {
        assert(out@ =~= removed_seq(orig.take(0), ks)) by {
            reveal_with_fuel(Seq::filter, 2);
            assert(orig.take(0) =~= Seq::<T>::empty());
        }
    }
    while work.len() > 0
        invariant
            n == orig.len(),
            ks == key_view_set(keys@),
            work@.len() <= n,
            work@ == orig.subrange(n - work@.len(), n),
            out@ == removed_seq(orig.take(n - work@.len()), ks),
        decreases work@.len(),
    {
        let ghost done = n - work@.len();
        let item = work.remove(0);
        proof {
            assert(item == orig[done]);
            assert(work@ =~= orig.subrange(done + 1, n));
        }
        let drop = contains_key(keys, &item);
        if !drop {
            out.push(item);
        }
        proof {
            reveal_with_fuel(Seq::filter, 2);
            assert(orig.take(done + 1).drop_last() =~= orig.take(done));
            assert(orig.take(done + 1).last() == item);
            if !ks.contains(item.key()) {
                assert(out@ == removed_seq(orig.take(done), ks).push(item));
            }
            assert(out@ == removed_seq(orig.take(done + 1), ks));
        }
    }
    *existing = out;
    proof {
        assert(orig.take(n) =~= orig);
        lemma_removed_model(orig, ks);
        if keys@.len() == 0 {
            assert forall|i: int| 0 <= i < orig.len() implies pred(orig[i]) by {
                assert(!ks.contains(orig[i].key()));
            }
            lemma_filter_all_kept(orig, pred);
        }
    }
}

/// Computes the collection a durable backend must write back after merging
/// `items`, or `None` when the batch is empty and nothing may be written.
///
/// An empty batch is a no-op: the backend must not create or rewrite any
/// file, which this function decides by returning `None`.
pub fn merged_for_write<T: Keyed>(existing: Vec<T>, items: Vec<T>) -> (r: Option<Vec<T>>)
    requires
        keys_unique(existing@),
    ensures
        (r is None) <==> items@.len() == 0,
        match r {
            Some(merged) => keys_unique(merged@) && map_of(merged@) == upsert_model(
                map_of(existing@),
                items@,
            ),
            None => true,
        },
{
    if items.len() == 0 {
        None
    } else {
        let mut merged = existing;
        upsert_by_key(&mut merged, items);
        Some(merged)
    }
}

/// Computes the collection a durable backend must write back after removing
/// the records named by `keys`, or `None` when the key batch is empty and
/// nothing may be written.
pub fn removed_for_write<T: Keyed>(existing: Vec<T>, keys: &Vec<T::Key>) -> (r: Option<Vec<T>>)
    requires
        keys_unique(existing@),
    ensures
        (r is None) <==> keys@.len() == 0,
        match r {
            Some(remaining) => {
                &&& remaining@ == removed_seq(existing@, key_view_set(keys@))
                &&& keys_unique(remaining@)
                &&& map_of(remaining@) == map_of(existing@).remove_keys(key_view_set(keys@))
            },
            None => true,
        },
{
    if keys.len() == 0 {
        None
    } else {
        let mut remaining = existing;
        remove_by_key(&mut remaining, keys);
        Some(remaining)
    }
}

/// Law: applying one upsert batch twice yields the same cache content as
/// applying it once, for every starting content and every batch.
pub proof fn lemma_upsert_idempotent<T: Keyed>(m: Map<<T::Key as View>::V, T>, batch: Seq<T>)
    ensures
        upsert_model(upsert_model(m, batch), batch) == upsert_model(m, batch),
{
    assert(upsert_model(upsert_model(m, batch), batch) =~= upsert_model(m, batch));
}

/// Law: merging an empty batch changes no content, for every content map.
pub proof fn lemma_upsert_empty<T: Keyed>(m: Map<<T::Key as View>::V, T>)
    ensures
        upsert_model(m, Seq::<T>::empty()) == m,
{
    assert(upsert_model(m, Seq::<T>::empty()) =~= m);
}

} // verus!

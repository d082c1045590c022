//! Ordering by keys.

use crate::text;
use crate::text_map::Duplicate;
use vstd::prelude::*;

verus! {

broadcast use vstd::seq_lib::group_seq_properties;

/// An order of keys: whether one comes before another.
pub type Order<K> = spec_fn(K, K) -> bool;

/// The order of texts.
pub open spec fn text_order() -> Order<Seq<char>> {
    |a: Seq<char>, b: Seq<char>| text::text_lt(a, b)
}

/// A key by which items are ordered.
pub trait Key: DeepView {
    /// The order of the keys.
    spec fn order() -> Order<Self::V>;

    /// Whether a key comes before another one.
    fn is_before(&self, other: &Self) -> (r: bool)
        ensures
            r == (Self::order())(self.deep_view(), other.deep_view()),
    ;
}

impl Key for String {
    open spec fn order() -> Order<Seq<char>> {
        text_order()
    }

    fn is_before(&self, other: &String) -> (r: bool) {
        text::less(self, other)
    }
}

/// How many items at the start do not come after a key.
pub open spec fn place_of<K, A>(sorted: Seq<(K, A)>, key: K, lt: Order<K>) -> int
    decreases sorted.len(),
{
    if sorted.len() == 0 || lt(key, sorted[0].0) {
        0
    } else {
        1 + place_of(sorted.drop_first(), key, lt)
    }
}

/// The items with their keys, ordered by the keys; items with one key keep their order.
pub open spec fn keyed<K, A>(items: Seq<A>, keys: Seq<K>, lt: Order<K>) -> Seq<(K, A)>
    decreases items.len(),
{
    if items.len() == 0 || keys.len() != items.len() {
        Seq::empty()
    } else {
        let before = keyed(items.drop_last(), keys.drop_last(), lt);
        before.insert(place_of(before, keys.last(), lt), (keys.last(), items.last()))
    }
}

/// The place lies within the items.
proof fn place_within<K, A>(sorted: Seq<(K, A)>, key: K, lt: Order<K>)
    ensures
        0 <= place_of(sorted, key, lt) <= sorted.len(),
    decreases sorted.len(),
{
    if sorted.len() > 0 && !lt(key, sorted[0].0) {
        place_within(sorted.drop_first(), key, lt);
    }
}

/// The items ordered by their keys; items with one key keep their order.
pub open spec fn ordered<K, A>(items: Seq<A>, keys: Seq<K>, lt: Order<K>) -> Seq<A> {
    keyed(items, keys, lt).map_values(|l: (K, A)| l.1)
}

/// Orders items by keys; items with one key keep their order.
pub fn order<V: Duplicate, K: Key + Duplicate>(items: &Vec<V>, keys: &Vec<K>) -> (r: Vec<V>)
    requires
        keys@.len() == items@.len(),
    ensures
        r.deep_view() == ordered(items.deep_view(), keys.deep_view(), K::order()),
{
    let ghost v = items.deep_view();
    let ghost k = keys.deep_view();
    let mut sorted: Vec<V> = Vec::new();
    let mut order: Vec<K> = Vec::new();
    let ghost lt = K::order();
    let mut i: usize = 0;
    while i < items.len()
        invariant
            v == items.deep_view(),
            lt == K::order(),
            k == keys.deep_view(),
            keys@.len() == items@.len(),
            i <= items@.len(),
            sorted.deep_view() =~= keyed(v.take(i as int), k.take(i as int), lt).map_values(|l: (K::V, V::V)| l.1),
            order.deep_view() =~= keyed(v.take(i as int), k.take(i as int), lt).map_values(|l: (K::V, V::V)| l.0),
            sorted@.len() == order@.len(),
            order@.len() == keyed(v.take(i as int), k.take(i as int), lt).len(),
        decreases items.len() - i,
    {
        let key = &keys[i];
        let ghost before = keyed(v.take(i as int), k.take(i as int), lt);
        assert(v.take(i + 1).drop_last() =~= v.take(i as int));
        assert(k.take(i + 1).drop_last() =~= k.take(i as int));
        assert(v.take(i + 1).last() == items@[i as int].deep_view());
        assert(k.take(i + 1).last() == key.deep_view());
        assert(before.len() == order@.len());
        let mut at: usize = 0;
        assert(before.skip(0) =~= before);
        while at < order.len() && !key.is_before(&order[at])
            invariant
                lt == K::order(),
                at <= order@.len(),
                before.len() == order@.len(),
                order.deep_view() =~= before.map_values(|l: (K::V, V::V)| l.0),
                place_of(before, key.deep_view(), lt) == at + place_of(before.skip(at as int), key.deep_view(), lt),
            decreases order.len() - at,
        {
            assert(order.deep_view()[at as int] == order@[at as int].deep_view());
            assert(before.skip(at as int)[0] == before[at as int]);
            assert(before.skip(at as int).drop_first() =~= before.skip(at + 1));
            at += 1;
        }
        proof {
            if at < order@.len() {
                assert(order.deep_view()[at as int] == order@[at as int].deep_view());
                assert(before.skip(at as int)[0] == before[at as int]);
            }
            assert(place_of(before, key.deep_view(), lt) == at);
        }
        let ghost listed = sorted.deep_view();
        let ghost named = order.deep_view();
        sorted.insert(at, items[i].duplicate());
        order.insert(at, key.duplicate());
        assert(sorted.deep_view() =~= listed.insert(at as int, v[i as int]));
        assert(order.deep_view() =~= named.insert(at as int, key.deep_view()));
        proof {
            place_within(before, key.deep_view(), lt);
        }
        i += 1;
    }
    assert(v.take(i as int) =~= v);
    assert(k.take(i as int) =~= k);
    assert(sorted.deep_view() =~= ordered(v, k, lt));
    sorted
}

// ---------------------------------------------------------------- laws

/// Whether an order is one: no two keys come before each other, and what does not come
/// after a key does not come after what follows it.
pub open spec fn is_order<K>(lt: Order<K>) -> bool {
    &&& forall|a: K, b: K| #[trigger] lt(a, b) ==> !lt(b, a)
    &&& forall|a: K, b: K, c: K| !(#[trigger] lt(b, a)) && !(#[trigger] lt(c, b)) ==> !lt(c, a)
}

/// The order of texts is one.
pub proof fn texts_are_ordered()
    ensures
        is_order(text_order()),
{
    let lt = text_order();
    assert forall|a: Seq<char>, b: Seq<char>| #[trigger] lt(a, b) implies !lt(b, a) by {
        text::text_lt_total(a, b);
    }
    assert forall|a: Seq<char>, b: Seq<char>, c: Seq<char>|
        !(#[trigger] lt(b, a)) && !(#[trigger] lt(c, b)) implies !lt(c, a) by {
        text::text_lt_total(a, b);
        text::text_lt_total(b, c);
        text::text_lt_total(a, c);
        if lt(a, b) && lt(b, c) {
            text::text_lt_transitive(a, b, c);
        }
    }
}

/// What is ordered by keys stands in the order of the keys.
pub proof fn keyed_items_are_ordered<K, A>(items: Seq<A>, keys: Seq<K>, lt: Order<K>, i: int, j: int)
    requires
        is_order(lt),
        keys.len() == items.len(),
        0 <= i < j < keyed(items, keys, lt).len(),
    ensures
        !lt(keyed(items, keys, lt)[j].0, keyed(items, keys, lt)[i].0),
    decreases items.len(),
{
    if items.len() > 0 {
        let before = keyed(items.drop_last(), keys.drop_last(), lt);
        let key = keys.last();
        let at = place_of(before, key, lt);
        place_within(before, key, lt);
        place_splits(before, key, lt);
        let a = if i < at { i } else { i - 1 };
        let b = if j < at { j } else { j - 1 };
        if i != at && j != at {
            keyed_items_are_ordered(items.drop_last(), keys.drop_last(), lt, a, b);
        } else if i == at {
            assert(!lt(before[at].0, key));
            if b > at {
                keyed_items_are_ordered(items.drop_last(), keys.drop_last(), lt, at, b);
                assert(!lt(before[b].0, before[at].0));
            }
        }
    }
}

/// Ordering loses nothing and adds nothing.
pub proof fn ordering_rearranges<K, A>(items: Seq<A>, keys: Seq<K>, lt: Order<K>)
    requires
        keys.len() == items.len(),
    ensures
        ordered(items, keys, lt).to_multiset() == items.to_multiset(),
        keyed(items, keys, lt).len() == items.len(),
    decreases items.len(),
{
    if items.len() > 0 {
        let before = keyed(items.drop_last(), keys.drop_last(), lt);
        let at = place_of(before, keys.last(), lt);
        place_within(before, keys.last(), lt);
        ordering_rearranges(items.drop_last(), keys.drop_last(), lt);
        let listed = ordered(items.drop_last(), keys.drop_last(), lt);
        assert(ordered(items, keys, lt) =~= listed.insert(at, items.last()));
        listed.to_multiset_ensures();
        vstd::seq_lib::to_multiset_insert(listed, at, items.last());
        items.drop_last().to_multiset_ensures();
        assert(items =~= items.drop_last().push(items.last()));
    } else {
        assert(ordered(items, keys, lt) =~= items);
    }
}

/// Each item keeps its key.
pub proof fn items_keep_their_keys<K, A>(items: Seq<A>, key_of: spec_fn(A) -> K, lt: Order<K>, i: int)
    requires
        0 <= i < keyed(items, items.map_values(key_of), lt).len(),
    ensures
        keyed(items, items.map_values(key_of), lt)[i].0 == key_of(keyed(items, items.map_values(key_of), lt)[i].1),
    decreases items.len(),
{
    let keys = items.map_values(key_of);
    if items.len() > 0 {
        assert(keys.drop_last() =~= items.drop_last().map_values(key_of));
        let before = keyed(items.drop_last(), keys.drop_last(), lt);
        let at = place_of(before, keys.last(), lt);
        place_within(before, keys.last(), lt);
        if i < at {
            items_keep_their_keys(items.drop_last(), key_of, lt, i);
        } else if i > at {
            items_keep_their_keys(items.drop_last(), key_of, lt, i - 1);
        }
    }
}

/// What stands before the place does not come after the key, and what stands at the place
/// does.
proof fn place_splits<K, A>(sorted: Seq<(K, A)>, key: K, lt: Order<K>)
    ensures
        forall|i: int| 0 <= i < place_of(sorted, key, lt) ==> !lt(key, (#[trigger] sorted[i]).0),
        place_of(sorted, key, lt) < sorted.len() ==> lt(key, sorted[place_of(sorted, key, lt)].0),
    decreases sorted.len(),
{
    if sorted.len() > 0 && !lt(key, sorted[0].0) {
        let rest = sorted.drop_first();
        place_splits(rest, key, lt);
        place_within(rest, key, lt);
        assert forall|i: int| 0 <= i < place_of(sorted, key, lt) implies !lt(key, (#[trigger] sorted[i]).0) by {
            if i > 0 {
                assert(rest[i - 1] == sorted[i]);
            }
        }
    }
}

} // verus!

//! A map from texts to values, kept in the order of its keys.

use crate::text;
use vstd::prelude::*;

verus! {

broadcast use vstd::seq_lib::group_seq_properties;

/// Whether texts stand in ascending order, each once.
pub open spec fn strictly_sorted(keys: Seq<Seq<char>>) -> bool {
    forall|i: int, j: int| 0 <= i < j < keys.len() ==> text::text_lt(#[trigger] keys[i], #[trigger] keys[j])
}

/// The members of a finite set of texts in ascending order.
pub open spec fn sorted_keys(texts: Set<Seq<char>>) -> Seq<Seq<char>> {
    choose|keys: Seq<Seq<char>>| strictly_sorted(keys) && keys.to_set() == texts
}

/// In ascending order each text has one place.
pub proof fn strictly_sorted_unique(keys: Seq<Seq<char>>, i: int, j: int)
    requires
        strictly_sorted(keys),
        0 <= i < keys.len(),
        0 <= j < keys.len(),
        keys[i] == keys[j],
    ensures
        i == j,
{
    text::text_lt_irreflexive(keys[i]);
}

/// A set of texts has one ascending order.
pub proof fn sorted_keys_unique(a: Seq<Seq<char>>, b: Seq<Seq<char>>)
    requires
        strictly_sorted(a),
        strictly_sorted(b),
        a.to_set() == b.to_set(),
    ensures
        a == b,
    decreases a.len(),
{
    if a.len() == 0 {
        if b.len() > 0 {
            assert(b.to_set().contains(b[0]));
            assert(a.contains(b[0]));
        }
        assert(a =~= b);
    } else if b.len() == 0 {
        assert(a.to_set().contains(a[0]));
        assert(b.contains(a[0]));
    } else {
        let x = a.last();
        let y = b.last();
        assert(a.to_set().contains(x));
        assert(b.to_set().contains(y));
        assert(b.contains(x));
        assert(a.contains(y));
        let i = choose|i: int| 0 <= i < b.len() && b[i] == x;
        let j = choose|j: int| 0 <= j < a.len() && a[j] == y;
        if x != y {
            assert(i < b.len() - 1);
            assert(j < a.len() - 1);
            assert(text::text_lt(b[i], b[b.len() - 1]));
            assert(text::text_lt(a[j], a[a.len() - 1]));
            text::text_lt_total(x, y);
        }
        let c = a.drop_last();
        let d = b.drop_last();
        assert(strictly_sorted(c));
        assert(strictly_sorted(d));
        assert forall|k: Seq<char>| c.to_set().contains(k) <==> d.to_set().contains(k) by {
            if c.contains(k) {
                let n = choose|n: int| 0 <= n < c.len() && c[n] == k;
                assert(a[n] == k);
                assert(text::text_lt(a[n], a[a.len() - 1]));
                text::text_lt_irreflexive(k);
                assert(a.to_set().contains(k));
                assert(b.contains(k));
                let m = choose|m: int| 0 <= m < b.len() && b[m] == k;
                assert(m < b.len() - 1);
                assert(d[m] == k);
            }
            if d.contains(k) {
                let n = choose|n: int| 0 <= n < d.len() && d[n] == k;
                assert(b[n] == k);
                assert(text::text_lt(b[n], b[b.len() - 1]));
                text::text_lt_irreflexive(k);
                assert(b.to_set().contains(k));
                assert(a.contains(k));
                let m = choose|m: int| 0 <= m < a.len() && a[m] == k;
                assert(m < a.len() - 1);
                assert(c[m] == k);
            }
        }
        assert(c.to_set() =~= d.to_set());
        sorted_keys_unique(c, d);
        assert(a =~= c.push(x));
        assert(b =~= d.push(y));
    }
}

/// Keys in ascending order are the sorted keys of their set, and there are as many
/// of them as the set has members.
pub proof fn sorted_keys_are(keys: Seq<Seq<char>>)
    requires
        strictly_sorted(keys),
    ensures
        sorted_keys(keys.to_set()) == keys,
        keys.to_set().finite(),
        keys.to_set().len() == keys.len(),
{
    let chosen = sorted_keys(keys.to_set());
    assert(strictly_sorted(chosen) && chosen.to_set() == keys.to_set());
    sorted_keys_unique(chosen, keys);
    assert(keys.no_duplicates()) by {
        assert forall|i: int, j: int| 0 <= i < keys.len() && 0 <= j < keys.len() && i != j implies keys[i] != keys[j] by {
            if keys[i] == keys[j] {
                strictly_sorted_unique(keys, i, j);
            }
        }
    }
    keys.unique_seq_to_set();
}

/// Every finite set of texts has an ascending order.
pub proof fn sorted_keys_exist(texts: Set<Seq<char>>)
    requires
        texts.finite(),
    ensures
        strictly_sorted(sorted_keys(texts)),
        sorted_keys(texts).to_set() == texts,
        sorted_keys(texts).len() == texts.len(),
    decreases texts.len(),
{
    if texts.is_empty() {
        let none = Seq::<Seq<char>>::empty();
        assert(none.to_set() =~= texts);
        sorted_keys_are(none);
    } else {
        let x = texts.choose();
        let rest = texts.remove(x);
        sorted_keys_exist(rest);
        let keys = sorted_keys(rest);
        let i = insertion_place(keys, x);
        let more = keys.insert(i, x);
        assert forall|a: int, b: int| 0 <= a < b < more.len() implies text::text_lt(#[trigger] more[a], #[trigger] more[b]) by {
            if a == i {
                text::text_lt_total(x, keys[b - 1]);
                if keys[b - 1] == x {
                    assert(keys.to_set().contains(x));
                }
            }
        }
        assert forall|k: Seq<char>| more.to_set().contains(k) <==> texts.contains(k) by {
            if more.contains(k) {
                let n = choose|n: int| 0 <= n < more.len() && more[n] == k;
                if n != i {
                    assert(keys.to_set().contains(keys[if n < i { n } else { n - 1 }]));
                }
            }
            if texts.contains(k) && k != x {
                assert(keys.to_set().contains(k));
                let n = choose|n: int| 0 <= n < keys.len() && keys[n] == k;
                assert(more[if n < i { n } else { n + 1 }] == k);
            }
            if k == x {
                assert(more[i] == x);
            }
        }
        assert(more.to_set() =~= texts);
        sorted_keys_are(more);
    }
}

/// The place of the first key that does not stand before a text.
proof fn insertion_place(keys: Seq<Seq<char>>, x: Seq<char>) -> (i: int)
    requires
        strictly_sorted(keys),
    ensures
        0 <= i <= keys.len(),
        forall|j: int| 0 <= j < i ==> text::text_lt(#[trigger] keys[j], x),
        forall|j: int| i <= j < keys.len() ==> !text::text_lt(#[trigger] keys[j], x),
    decreases keys.len(),
{
    if keys.len() == 0 {
        0
    } else if text::text_lt(keys.last(), x) {
        assert forall|j: int| 0 <= j < keys.len() implies text::text_lt(#[trigger] keys[j], x) by {
            if j < keys.len() - 1 {
                assert(text::text_lt(keys[j], keys[keys.len() - 1]));
                text::text_lt_transitive(keys[j], keys.last(), x);
            }
        }
        keys.len() as int
    } else {
        let rest = keys.drop_last();
        assert(strictly_sorted(rest));
        let i = insertion_place(rest, x);
        assert forall|j: int| i <= j < keys.len() implies !text::text_lt(#[trigger] keys[j], x) by {
            if j < rest.len() {
                assert(!text::text_lt(rest[j], x));
            }
        }
        assert forall|j: int| 0 <= j < i implies text::text_lt(#[trigger] keys[j], x) by {
            assert(text::text_lt(rest[j], x));
        }
        i
    }
}

/// The map that pairs each key with the value at its place.
pub open spec fn paired<A>(keys: Seq<Seq<char>>, values: Seq<A>) -> Map<Seq<char>, A> {
    Map::new(|k: Seq<char>| keys.contains(k), |k: Seq<char>| values[keys.index_of(k)])
}

/// The values of a map in the order of its keys.
pub open spec fn values_in_order<A>(map: Map<Seq<char>, A>) -> Seq<A> {
    sorted_keys(map.dom()).map_values(|k: Seq<char>| map[k])
}

/// A map from texts to values.
#[derive(Debug, PartialEq, Eq)]
pub struct TextMap<V> {
    keys: Vec<String>,
    values: Vec<V>,
}

impl<V: DeepView> View for TextMap<V> {
    type V = Map<Seq<char>, V::V>;

    closed spec fn view(&self) -> Map<Seq<char>, V::V> {
        paired(self.keys.deep_view(), self.values.deep_view())
    }
}

impl<V: DeepView> DeepView for TextMap<V> {
    type V = Map<Seq<char>, V::V>;

    open spec fn deep_view(&self) -> Map<Seq<char>, V::V> {
        self@
    }
}

impl<V> TextMap<V> {
    #[verifier::type_invariant]
    spec fn ordered(&self) -> bool {
        &&& self.keys@.len() == self.values@.len()
        &&& strictly_sorted(self.keys.deep_view())
    }
}

impl<V: DeepView> TextMap<V> {
    /// The value at a key's place is the value of that key.
    proof fn at_place(&self, i: int)
        requires
            self.ordered(),
            0 <= i < self.keys@.len(),
        ensures
            self@.contains_key(self.keys.deep_view()[i]),
            self@[self.keys.deep_view()[i]] == self.values.deep_view()[i],
    {
        let keys = self.keys.deep_view();
        assert(keys.contains(keys[i]));
        strictly_sorted_unique(keys, i, keys.index_of(keys[i]));
    }

    /// The keys in order are the sorted keys of the map's domain.
    proof fn domain(&self)
        requires
            self.ordered(),
        ensures
            self@.dom() == self.keys.deep_view().to_set(),
            sorted_keys(self@.dom()) == self.keys.deep_view(),
            self@.dom().finite(),
            self@.dom().len() == self.keys@.len(),
    {
        sorted_keys_are(self.keys.deep_view());
        assert(self@.dom() =~= self.keys.deep_view().to_set());
    }

    /// Every key of a map stands among its sorted keys.
    pub proof fn key_is_listed(&self, key: Seq<char>)
        requires
            self@.contains_key(key),
        ensures
            sorted_keys(self@.dom()).contains(key),
    {
        self.domain_is_finite();
        sorted_keys_exist(self@.dom());
        assert(sorted_keys(self@.dom()).to_set().contains(key));
    }

    /// The domain of a map is finite.
    pub proof fn domain_is_finite(&self)
        ensures
            self@.dom().finite(),
    {
        assert(self@.dom() =~= self.keys.deep_view().to_set());
    }

    /// The map without entries.
    pub fn new() -> (r: Self)
        ensures
            r@ == Map::<Seq<char>, V::V>::empty(),
    {
        let r = TextMap { keys: Vec::new(), values: Vec::new() };
        assert(r@ =~= Map::<Seq<char>, V::V>::empty());
        r
    }

    /// How many entries there are.
    pub fn len(&self) -> (r: usize)
        ensures
            r == self@.dom().len(),
            r == sorted_keys(self@.dom()).len(),
            self@.dom().finite(),
    {
        proof {
            use_type_invariant(self);
            self.domain();
        }
        self.keys.len()
    }

    /// Whether there is no entry.
    pub fn is_empty(&self) -> (r: bool)
        ensures
            r == (self@ == Map::<Seq<char>, V::V>::empty()),
    {
        proof {
            use_type_invariant(self);
            if self.keys@.len() > 0 {
                self.at_place(0);
            } else {
                assert(self@ =~= Map::<Seq<char>, V::V>::empty());
            }
        }
        self.keys.len() == 0
    }

    /// The key at a place in ascending order.
    pub fn key_at(&self, i: usize) -> (r: &String)
        requires
            i < sorted_keys(self@.dom()).len(),
        ensures
            r@ == sorted_keys(self@.dom())[i as int],
            self@.contains_key(r@),
    {
        proof {
            use_type_invariant(self);
            self.domain();
            self.at_place(i as int);
        }
        &self.keys[i]
    }

    /// The value of the key at a place in ascending order.
    pub fn value_at(&self, i: usize) -> (r: &V)
        requires
            i < sorted_keys(self@.dom()).len(),
        ensures
            self@.contains_key(sorted_keys(self@.dom())[i as int]),
            r.deep_view() == self@[sorted_keys(self@.dom())[i as int]],
    {
        proof {
            use_type_invariant(self);
            self.domain();
            self.at_place(i as int);
        }
        &self.values[i]
    }

    /// The place of the first key that does not stand before the given one.
    fn place(&self, key: &str) -> (r: usize)
        requires
            self.ordered(),
        ensures
            r <= self.keys@.len(),
            forall|i: int| 0 <= i < r ==> text::text_lt(#[trigger] self.keys.deep_view()[i], key@),
            forall|i: int| r <= i < self.keys@.len() ==> !text::text_lt(#[trigger] self.keys.deep_view()[i], key@),
    {
        let mut i: usize = 0;
        let ghost keys = self.keys.deep_view();
        while i < self.keys.len() && text::less(&self.keys[i], key)
            invariant
                keys == self.keys.deep_view(),
                i <= self.keys@.len(),
                forall|j: int| 0 <= j < i ==> text::text_lt(#[trigger] keys[j], key@),
            decreases self.keys.len() - i,
        {
            assert(keys[i as int] == self.keys@[i as int]@);
            i += 1;
        }
        assert forall|j: int| i <= j < self.keys@.len() implies !text::text_lt(#[trigger] keys[j], key@) by {
            assert(keys[i as int] == self.keys@[i as int]@);
            if j > i && text::text_lt(keys[j], key@) {
                assert(text::text_lt(keys[i as int], keys[j]));
                text::text_lt_transitive(keys[i as int], keys[j], key@);
            }
        }
        i
    }

    /// The place of a key, if it has one.
    fn index(&self, key: &str) -> (r: Option<usize>)
        requires
            self.ordered(),
        ensures
            match r {
                Some(i) => i < self.keys@.len() && self.keys.deep_view()[i as int] == key@
                    && self@.contains_key(key@),
                None => !self@.contains_key(key@),
            },
    {
        let i = self.place(key);
        let ghost keys = self.keys.deep_view();
        if i < self.keys.len() && text::same(&self.keys[i], key) {
            proof {
                assert(keys[i as int] == self.keys@[i as int]@);
                self.at_place(i as int);
            }
            Some(i)
        } else {
            proof {
                if keys.contains(key@) {
                    let j = choose|j: int| 0 <= j < keys.len() && keys[j] == key@;
                    text::text_lt_irreflexive(key@);
                    assert(j >= i);
                    if j > i {
                        assert(text::text_lt(keys[i as int], keys[j]));
                    } else {
                        assert(keys[i as int] == self.keys@[i as int]@);
                    }
                }
            }
            None
        }
    }

    /// Whether a key has an entry.
    pub fn contains_key(&self, key: &str) -> (r: bool)
        ensures
            r == self@.contains_key(key@),
    {
        proof {
            use_type_invariant(self);
        }
        self.index(key).is_some()
    }

    /// The value of a key.
    pub fn get(&self, key: &str) -> (r: Option<&V>)
        ensures
            match r {
                Some(value) => self@.contains_key(key@) && value.deep_view() == self@[key@],
                None => !self@.contains_key(key@),
            },
    {
        proof {
            use_type_invariant(self);
        }
        match self.index(key) {
            Some(i) => {
                proof {
                    self.at_place(i as int);
                }
                Some(&self.values[i])
            },
            None => None,
        }
    }

    /// Takes the parts out, leaving the empty map.
    fn take_parts(&mut self) -> (r: (Vec<String>, Vec<V>))
        ensures
            r.0 == old(self).keys,
            r.1 == old(self).values,
    {
        let mut taken: TextMap<V> = TextMap { keys: Vec::new(), values: Vec::new() };
        std::mem::swap(self, &mut taken);
        (taken.keys, taken.values)
    }

    /// Gives a key a value, in place of the one it had.
    pub fn insert(&mut self, key: String, value: V)
        ensures
            final(self)@ == old(self)@.insert(key@, value.deep_view()),
    {
        proof {
            use_type_invariant(&*self);
        }
        let i = self.place(&key);
        let found = self.index(&key).is_some();
        let ghost before = *self;
        let (mut keys, mut values) = self.take_parts();
        let ghost old_keys = keys.deep_view();
        let ghost old_values = values.deep_view();
        let ghost name = key@;
        let ghost given = value.deep_view();
        if found {
            proof {
                assert(old_keys.contains(name));
                let j = choose|j: int| 0 <= j < old_keys.len() && old_keys[j] == name;
                text::text_lt_irreflexive(name);
                assert(j >= i);
                if j > i {
                    assert(text::text_lt(old_keys[i as int], old_keys[j]));
                }
            }
            values.set(i, value);
            proof {
                assert(values.deep_view() =~= old_values.update(i as int, given));
            }
        } else {
            keys.insert(i, key);
            values.insert(i, value);
            proof {
                assert(keys.deep_view() =~= old_keys.insert(i as int, name));
                assert(values.deep_view() =~= old_values.insert(i as int, given));
                assert forall|a: int, b: int| 0 <= a < b < keys.deep_view().len() implies text::text_lt(
                    #[trigger] keys.deep_view()[a],
                    #[trigger] keys.deep_view()[b],
                ) by {
                    if a == i {
                        text::text_lt_total(name, old_keys[b - 1]);
                        if old_keys[b - 1] == name {
                            assert(old_keys.contains(name));
                        }
                    }
                }
            }
        }
        *self = TextMap { keys, values };
        proof {
            let now = *self;
            assert forall|k: Seq<char>| now@.contains_key(k) <==> (k == name || before@.contains_key(k)) by {
                let ks = now.keys.deep_view();
                if ks.contains(k) {
                    let a = choose|a: int| 0 <= a < ks.len() && ks[a] == k;
                    if !found {
                        if a < i {
                            assert(old_keys[a] == k);
                        } else if a > i {
                            assert(old_keys[a - 1] == k);
                        }
                    } else {
                        assert(old_keys[a] == k);
                    }
                }
                if old_keys.contains(k) {
                    let a = choose|a: int| 0 <= a < old_keys.len() && old_keys[a] == k;
                    if !found && a >= i {
                        assert(ks[a + 1] == k);
                    } else {
                        assert(ks[a] == k);
                    }
                }
                if k == name {
                    assert(ks[i as int] == name);
                }
            }
            assert forall|k: Seq<char>| now@.contains_key(k) implies now@[k] == (if k == name {
                given
            } else {
                before@[k]
            }) by {
                let ks = now.keys.deep_view();
                let a = choose|a: int| 0 <= a < ks.len() && ks[a] == k;
                now.at_place(a);
                if k == name {
                    assert(ks[i as int] == name);
                    now.at_place(i as int);
                } else if found || a < i {
                    assert(old_keys[a] == k);
                    before.at_place(a);
                } else {
                    assert(old_keys[a - 1] == k);
                    before.at_place(a - 1);
                }
            }
            assert(now@ =~= before@.insert(name, given));
        }
    }

    /// Takes the entry of a key out and returns its value.
    pub fn remove(&mut self, key: &str) -> (r: Option<V>)
        ensures
            final(self)@ == old(self)@.remove(key@),
            match r {
                Some(value) => old(self)@.contains_key(key@) && value.deep_view() == old(self)@[key@],
                None => !old(self)@.contains_key(key@),
            },
    {
        proof {
            use_type_invariant(&*self);
        }
        let ghost before = *self;
        match self.index(key) {
            None => {
                assert(self@ =~= before@.remove(key@));
                None
            },
            Some(i) => {
                let (mut keys, mut values) = self.take_parts();
                let ghost old_keys = keys.deep_view();
                let ghost old_values = values.deep_view();
                proof {
                    before.at_place(i as int);
                }
                keys.remove(i);
                let value = values.remove(i);
                proof {
                    assert(keys.deep_view() =~= old_keys.remove(i as int));
                    assert(values.deep_view() =~= old_values.remove(i as int));
                }
                *self = TextMap { keys, values };
                proof {
                    let now = *self;
                    let ks = now.keys.deep_view();
                    assert forall|k: Seq<char>| now@.contains_key(k) <==> (k != key@ && before@.contains_key(k)) by {
                        if ks.contains(k) {
                            let a = choose|a: int| 0 <= a < ks.len() && ks[a] == k;
                            let b = if a < i { a } else { a + 1 };
                            assert(old_keys[b] == k);
                            if k == key@ {
                                strictly_sorted_unique(old_keys, b, i as int);
                            }
                        }
                        if k != key@ && old_keys.contains(k) {
                            let a = choose|a: int| 0 <= a < old_keys.len() && old_keys[a] == k;
                            assert(ks[if a < i { a } else { a - 1 }] == k);
                        }
                    }
                    assert forall|k: Seq<char>| now@.contains_key(k) implies now@[k] == before@[k] by {
                        let a = choose|a: int| 0 <= a < ks.len() && ks[a] == k;
                        let b = if a < i { a } else { a + 1 };
                        now.at_place(a);
                        assert(old_keys[b] == k);
                        before.at_place(b);
                    }
                    assert(now@ =~= before@.remove(key@));
                }
                Some(value)
            },
        }
    }

    /// The keys in ascending order, and their values.
    pub fn into_parts(self) -> (r: (Vec<String>, Vec<V>))
        ensures
            r.0.deep_view() == sorted_keys(self@.dom()),
            strictly_sorted(r.0.deep_view()),
            r.0@.len() == r.1@.len(),
            forall|i: int| 0 <= i < r.1@.len() ==> (#[trigger] r.1@[i]).deep_view() == self@[r.0@[i]@],
    {
        proof {
            use_type_invariant(&self);
            self.domain();
            assert forall|i: int| 0 <= i < self.values@.len() implies (#[trigger] self.values@[i]).deep_view()
                == self@[self.keys@[i]@] by {
                self.at_place(i);
            }
        }
        (self.keys, self.values)
    }

    /// The keys in ascending order.
    pub fn key_list(&self) -> (r: Vec<String>)
        ensures
            r.deep_view() == sorted_keys(self@.dom()),
    {
        proof {
            use_type_invariant(self);
            self.domain();
        }
        let r = self.keys.clone();
        assert(r.deep_view() =~= self.keys.deep_view());
        r
    }
}

/// A value of which there can be a copy with the same contents.
pub trait Duplicate: DeepView + Sized {
    /// A copy with the same contents.
    fn duplicate(&self) -> (r: Self)
        ensures
            r.deep_view() == self.deep_view(),
    ;
}

impl Duplicate for () {
    fn duplicate(&self) -> (r: ()) {
        ()
    }
}

impl Duplicate for u64 {
    fn duplicate(&self) -> (r: u64) {
        *self
    }
}

impl Duplicate for bool {
    fn duplicate(&self) -> (r: bool) {
        *self
    }
}

impl Duplicate for String {
    fn duplicate(&self) -> (r: String) {
        self.clone()
    }
}

impl<V: Duplicate> Duplicate for Vec<V> {
    fn duplicate(&self) -> (r: Vec<V>) {
        let mut r: Vec<V> = Vec::new();
        let mut i: usize = 0;
        while i < self.len()
            invariant
                i <= self@.len(),
                r@.len() == i,
                forall|k: int| 0 <= k < i ==> (#[trigger] r@[k]).deep_view() == self@[k].deep_view(),
            decreases self.len() - i,
        {
            r.push(self[i].duplicate());
            i += 1;
        }
        assert(r.deep_view() =~= self.deep_view());
        r
    }
}

impl<V: Duplicate> TextMap<V> {
    /// A map with the same contents.
    pub fn copy(&self) -> (r: TextMap<V>)
        ensures
            r@ == self@,
    {
        proof {
            use_type_invariant(self);
        }
        let keys = self.keys.clone();
        assert(keys.deep_view() =~= self.keys.deep_view());
        let mut values: Vec<V> = Vec::new();
        let mut i: usize = 0;
        while i < self.values.len()
            invariant
                i <= self.values@.len(),
                values@.len() == i,
                forall|k: int| 0 <= k < i ==> (#[trigger] values@[k]).deep_view() == self.values@[k].deep_view(),
            decreases self.values.len() - i,
        {
            values.push(self.values[i].duplicate());
            i += 1;
        }
        assert(values.deep_view() =~= self.values.deep_view());
        TextMap { keys, values }
    }
}

impl<V: Duplicate> Duplicate for TextMap<V> {
    fn duplicate(&self) -> (r: TextMap<V>) {
        self.copy()
    }
}

impl<V: Duplicate> TextMap<V> {
    /// The values in the order of their keys.
    pub fn value_list(&self) -> (r: Vec<V>)
        ensures
            r.deep_view() == values_in_order(self@),
    {
        let ghost all = values_in_order(self@);
        let mut r: Vec<V> = Vec::new();
        let count: usize = self.len();
        let mut i: usize = 0;
        assert(r.deep_view() =~= all.take(0));
        while i < count
            invariant
                all == values_in_order(self@),
                count == sorted_keys(self@.dom()).len(),
                i <= count,
                r.deep_view() == all.take(i as int),
            decreases count - i,
        {
            let ghost before = r.deep_view();
            r.push(self.value_at(i).duplicate());
            assert(r.deep_view() =~= before.push(all[i as int]));
            assert(all.take(i + 1) =~= all.take(i as int).push(all[i as int]));
            i += 1;
        }
        assert(all.take(i as int) =~= all);
        r
    }
}

/// A value that can be compared by its contents.
pub trait Comparable: DeepView {
    /// Whether the contents are the same.
    fn same(&self, other: &Self) -> (r: bool)
        ensures
            r == (self.deep_view() == other.deep_view()),
    ;
}

impl Comparable for String {
    fn same(&self, other: &String) -> (r: bool) {
        text::same(self, other)
    }
}

/// Whether the contents of two lists are the same.
pub fn same_list<V: Comparable>(a: &Vec<V>, b: &Vec<V>) -> (r: bool)
    ensures
        r == (a.deep_view() == b.deep_view()),
{
    if a.len() != b.len() {
        assert(a.deep_view().len() != b.deep_view().len());
        return false;
    }
    let mut i: usize = 0;
    while i < a.len()
        invariant
            i <= a@.len() == b@.len(),
            forall|k: int| 0 <= k < i ==> (#[trigger] a@[k]).deep_view() == b@[k].deep_view(),
        decreases a.len() - i,
    {
        if !a[i].same(&b[i]) {
            assert(a.deep_view()[i as int] != b.deep_view()[i as int]);
            return false;
        }
        i += 1;
    }
    assert(a.deep_view() =~= b.deep_view());
    true
}

impl<V: Comparable> TextMap<V> {
    /// Whether the contents are the same.
    pub fn same_as(&self, other: &TextMap<V>) -> (r: bool)
        ensures
            r == (self@ == other@),
    {
        proof {
            use_type_invariant(self);
            use_type_invariant(other);
            self.domain();
            other.domain();
        }
        if !same_list(&self.keys, &other.keys) {
            assert(self@.dom() != other@.dom());
            return false;
        }
        let r = same_list(&self.values, &other.values);
        proof {
            if !r {
                let a = self.values.deep_view();
                let b = other.values.deep_view();
                if forall|i: int| 0 <= i < a.len() ==> a[i] == b[i] {
                    assert(a =~= b);
                }
                let i = choose|i: int| 0 <= i < a.len() && a[i] != b[i];
                self.at_place(i);
                other.at_place(i);
            }
        }
        r
    }
}

impl<V: DeepView> TextMap<V> {
    /// Drops the keys that another map does not have.
    pub fn restrict<W: DeepView>(&mut self, keys: &TextMap<W>)
        ensures
            final(self)@ == old(self)@.restrict(keys@.dom()),
    {
        let ghost start = self@;
        let all = self.key_list();
        let ghost v = all.deep_view();
        proof {
            self.domain_is_finite();
            sorted_keys_exist(self@.dom());
        }
        let mut i: usize = 0;
        while i < all.len()
            invariant
                v == all.deep_view(),
                v.to_set() == start.dom(),
                i <= all@.len(),
                forall|k: Seq<char>| #[trigger]
                    self@.contains_key(k) <==> start.contains_key(k) && (keys@.contains_key(k) || !v.take(
                        i as int,
                    ).contains(k)),
                forall|k: Seq<char>| #[trigger] self@.contains_key(k) ==> self@[k] == start[k],
            decreases all.len() - i,
        {
            assert(v.take(i + 1) =~= v.take(i as int).push(v[i as int]));
            if !keys.contains_key(&all[i]) {
                let _ = self.remove(&all[i]);
            }
            i += 1;
        }
        assert(v.take(i as int) =~= v);
        assert forall|k: Seq<char>| start.contains_key(k) implies #[trigger] v.contains(k) by {
            assert(v.to_set().contains(k));
        }
        assert(self@ =~= start.restrict(keys@.dom()));
    }
}

} // verus!

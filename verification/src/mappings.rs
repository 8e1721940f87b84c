//! Reference semantics of the capability catalogue for the mapping shape: a
//! wrapper around a mapping-like container behaves exactly like the container
//! it wraps. The inner container is modelled by `Dictionary`, a verified
//! keyed store whose insert overwrites earlier entries with the same key —
//! the semantics every capability of a mapping wrapper delegates to.

use vstd::prelude::*;

verus! {

/// A key of the mapping model: executable equality decides equality of views.
pub trait DictKey: View + Sized {
    /// Whether two keys are the same key.
    fn key_equal(&self, other: &Self) -> (b: bool)
        ensures
            b <==> self@ == other@,
    ;
}

impl DictKey for String {
    fn key_equal(&self, other: &Self) -> (b: bool) {
        *self == *other
    }
}

impl DictKey for u8 {
    fn key_equal(&self, other: &Self) -> (b: bool) {
        *self == *other
    }
}

impl DictKey for u32 {
    fn key_equal(&self, other: &Self) -> (b: bool) {
        *self == *other
    }
}

/// The map denoted by an entry list: each entry binds its key's view, later
/// entries overwriting earlier ones.
pub open spec fn entries_map<K: DictKey, V>(s: Seq<(K, V)>) -> Map<<K as View>::V, V>
    decreases s.len(),
{
    if s.len() == 0 {
        Map::empty()
    } else {
        entries_map(s.drop_last()).insert(s.last().0@, s.last().1)
    }
}

/// The map after inserting each item, in order, into `m`: the mapping shape's
/// own insert semantics, later keys overwriting earlier duplicate keys.
pub open spec fn inserted<K: DictKey, V>(m: Map<<K as View>::V, V>, items: Seq<(K, V)>) -> Map<
    <K as View>::V,
    V,
>
    decreases items.len(),
{
    if items.len() == 0 {
        m
    } else {
        inserted(m, items.drop_last()).insert(items.last().0@, items.last().1)
    }
}

/// All keys of an entry list are distinct (by view).
pub open spec fn distinct_keys<K: DictKey, V>(s: Seq<(K, V)>) -> bool {
    forall|i: int, j: int| 0 <= i < j < s.len() ==> s[i].0@ != s[j].0@
}

/// A key is in the denoted map exactly when some entry binds it.
proof fn lemma_entries_map_contains<K: DictKey, V>(s: Seq<(K, V)>, k: <K as View>::V)
    ensures
        entries_map(s).dom().contains(k) <==> exists|i: int| 0 <= i < s.len() && s[i].0@ == k,
    decreases s.len(),
{
    if s.len() > 0 {
        lemma_entries_map_contains(s.drop_last(), k);
        if s.last().0@ == k {
            assert(s[s.len() - 1].0@ == k);
        } else if exists|i: int| 0 <= i < s.len() && s[i].0@ == k {
            let i = choose|i: int| 0 <= i < s.len() && s[i].0@ == k;
            assert(s.drop_last()[i] == s[i]);
        }
    }
}

/// With distinct keys, the entry at `i` gives its key's value in the denoted
/// map.
proof fn lemma_entries_map_at<K: DictKey, V>(s: Seq<(K, V)>, i: int)
    requires
        distinct_keys(s),
        0 <= i < s.len(),
    ensures
        entries_map(s).dom().contains(s[i].0@),
        entries_map(s)[s[i].0@] == s[i].1,
    decreases s.len(),
{
    if i == s.len() - 1 {
    } else {
        assert(distinct_keys(s.drop_last()));
        assert(s.drop_last()[i] == s[i]);
        lemma_entries_map_at(s.drop_last(), i);
        assert(s[i].0@ != s.last().0@);
    }
}

/// With distinct keys, the denoted map is finite and has exactly one binding
/// per entry.
proof fn lemma_entries_map_len<K: DictKey, V>(s: Seq<(K, V)>)
    requires
        distinct_keys(s),
    ensures
        entries_map(s).dom().finite(),
        entries_map(s).dom().len() == s.len(),
    decreases s.len(),
{
    broadcast use vstd::set::axiom_set_insert_len, vstd::set::axiom_set_insert_finite;

    if s.len() > 0 {
        assert(distinct_keys(s.drop_last()));
        lemma_entries_map_len(s.drop_last());
        lemma_entries_map_contains(s.drop_last(), s.last().0@);
        assert forall|i: int| 0 <= i < s.drop_last().len() implies s.drop_last()[i].0@
            != s.last().0@ by {
            assert(s[i] == s.drop_last()[i]);
        }
    }
}

/// Replacing the entry that binds a key rebinds exactly that key.
proof fn lemma_entries_map_update<K: DictKey, V>(s: Seq<(K, V)>, i: int, e: (K, V))
    requires
        distinct_keys(s),
        0 <= i < s.len(),
        e.0@ == s[i].0@,
    ensures
        entries_map(s.update(i, e)) == entries_map(s).insert(e.0@, e.1),
    decreases s.len(),
{
    let updated = s.update(i, e);
    if i == s.len() - 1 {
        assert(updated.drop_last() =~= s.drop_last());
        assert(updated.last() == e);
        assert(entries_map(updated) == entries_map(s.drop_last()).insert(e.0@, e.1));
        assert(entries_map(s.drop_last()).insert(s.last().0@, s.last().1).insert(e.0@, e.1)
            =~= entries_map(s.drop_last()).insert(e.0@, e.1));
    } else {
        assert(distinct_keys(s.drop_last()));
        assert(s.drop_last()[i] == s[i]);
        lemma_entries_map_update(s.drop_last(), i, e);
        assert(updated.drop_last() =~= s.drop_last().update(i, e));
        assert(updated.last() == s.last());
        assert(s[i].0@ != s.last().0@);
        assert(entries_map(s.drop_last()).insert(e.0@, e.1).insert(s.last().0@, s.last().1)
            =~= entries_map(s.drop_last()).insert(s.last().0@, s.last().1).insert(e.0@, e.1));
    }
}

/// Appending an entry binds its key, over everything already bound.
proof fn lemma_entries_map_push<K: DictKey, V>(s: Seq<(K, V)>, e: (K, V))
    ensures
        entries_map(s.push(e)) == entries_map(s).insert(e.0@, e.1),
{
    assert(s.push(e).drop_last() =~= s);
    assert(s.push(e).last() == e);
}

/// Inserting a concatenation is inserting one part after the other.
pub proof fn lemma_inserted_append<K: DictKey, V>(
    m: Map<<K as View>::V, V>,
    a: Seq<(K, V)>,
    b: Seq<(K, V)>,
)
    ensures
        inserted(m, a + b) == inserted(inserted(m, a), b),
    decreases b.len(),
{
    if b.len() == 0 {
        assert(a + b =~= a);
    } else {
        assert((a + b).drop_last() =~= a + b.drop_last());
        assert((a + b).last() == b.last());
        lemma_inserted_append(m, a, b.drop_last());
    }
}

/// The mapping model's inner container: a keyed store with one binding per
/// key, whose insert overwrites the earlier binding of the same key.
pub struct Dictionary<K: DictKey, V> {
    entries: Vec<(K, V)>,
}

/// A borrowing cursor over a dictionary: a lazy, finite, restartable view
/// yielding each binding as a pair of references, keys never mutably.
pub struct DictionaryIter<'a, K: DictKey, V> {
    pub entries: &'a Vec<(K, V)>,
    pub pos: usize,
}

impl<'a, K: DictKey, V> DictionaryIter<'a, K, V> {
    /// Yields references to the next binding, or `None` past the end.
    pub fn next(&mut self) -> (r: Option<(&'a K, &'a V)>)
        ensures
            old(self).pos < old(self).entries@.len() ==> {
                &&& final(self).pos == old(self).pos + 1
                &&& final(self).entries == old(self).entries
                &&& r matches Some(kv) && *kv.0 == old(self).entries@[old(self).pos as int].0
                    && *kv.1 == old(self).entries@[old(self).pos as int].1
            },
            old(self).pos >= old(self).entries@.len() ==> r is None && *final(self) == *old(self),
    {
        let entries = self.entries;
        if self.pos < entries.len() {
            let e = &entries[self.pos];
            self.pos = self.pos + 1;
            Some((&e.0, &e.1))
        } else {
            None
        }
    }
}

impl<K: DictKey, V> View for Dictionary<K, V> {
    type V = Map<<K as View>::V, V>;

    open spec fn view(&self) -> Map<<K as View>::V, V> {
        entries_map(self.entry_seq())
    }
}

impl<K: DictKey, V> Dictionary<K, V> {
    /// The bindings, in the order a borrowing or consuming iteration yields
    /// them.
    pub closed spec fn entry_seq(&self) -> Seq<(K, V)> {
        self.entries@
    }

    /// Well-formedness: one binding per key.
    pub open spec fn wf(&self) -> bool {
        distinct_keys(self.entry_seq())
    }

    /// An empty dictionary.
    pub fn new() -> (d: Self)
        ensures
            d.wf(),
            d@ == Map::<<K as View>::V, V>::empty(),
            d.entry_seq() == Seq::<(K, V)>::empty(),
    {
        Dictionary { entries: Vec::new() }
    }

    /// An empty dictionary with room for `capacity` bindings.
    pub fn with_capacity(capacity: usize) -> (d: Self)
        ensures
            d.wf(),
            d@ == Map::<<K as View>::V, V>::empty(),
            d.entry_seq() == Seq::<(K, V)>::empty(),
    {
        Dictionary { entries: Vec::with_capacity(capacity) }
    }

    /// The number of bindings.
    pub fn len(&self) -> (n: usize)
        requires
            self.wf(),
        ensures
            n == self@.dom().len(),
            n == self.entry_seq().len(),
    {
        proof {
            lemma_entries_map_len(self.entry_seq());
        }
        self.entries.len()
    }

    /// Whether the dictionary holds no bindings.
    pub fn is_empty(&self) -> (b: bool)
        requires
            self.wf(),
        ensures
            b <==> self@ == Map::<<K as View>::V, V>::empty(),
    {
        proof {
            if self.entry_seq().len() > 0 {
                lemma_entries_map_at(self.entry_seq(), 0);
                assert(self@.dom().contains(self.entry_seq()[0].0@));
            }
        }
        self.entries.is_empty()
    }

    /// The store's capacity, at least the number of bindings.
    pub fn capacity(&self) -> (c: usize)
        requires
            self.wf(),
        ensures
            c >= self@.dom().len(),
    {
        proof {
            lemma_entries_map_len(self.entry_seq());
        }
        crate::sequences::vec_capacity(&self.entries)
    }

    /// Reserves room for at least `additional` more bindings; the contents do
    /// not change.
    pub fn reserve(&mut self, additional: usize)
        ensures
            final(self).entry_seq() == old(self).entry_seq(),
    {
        self.entries.reserve(additional);
    }

    /// Removes all bindings.
    pub fn clear(&mut self)
        ensures
            final(self).wf(),
            final(self)@ == Map::<<K as View>::V, V>::empty(),
            final(self).entry_seq() == Seq::<(K, V)>::empty(),
    {
        self.entries.clear();
    }

    /// Binds `key` to `value`, overwriting the earlier binding of the same
    /// key if there is one.
    pub fn insert(&mut self, key: K, value: V)
        requires
            old(self).wf(),
        ensures
            final(self).wf(),
            final(self)@ == old(self)@.insert(key@, value),
    {
        let n = self.entries.len();
        let mut i: usize = 0;
        while i < n
            invariant
                i <= n,
                n == self.entries@.len(),
                self.entries@ == old(self).entries@,
                old(self).wf(),
                forall|j: int| 0 <= j < i ==> self.entries@[j].0@ != key@,
            decreases n - i,
        {
            if self.entries[i].0.key_equal(&key) {
                let ghost pre = self.entries@;
                let ghost e = (pre[i as int].0, value);
                let slot = &mut self.entries[i];
                slot.1 = value;
                proof {
                    assert(self.entries@ == pre.update(i as int, e));
                    lemma_entries_map_update(pre, i as int, e);
                    assert forall|p: int, q: int|
                        0 <= p < q < self.entries@.len() implies self.entries@[p].0@
                        != self.entries@[q].0@ by {
                        assert(self.entries@[p].0@ == pre[p].0@);
                        assert(self.entries@[q].0@ == pre[q].0@);
                    }
                    assert(self@ == old(self)@.insert(key@, value));
                }
                return;
            }
            i += 1;
        }
        let ghost pre = self.entries@;
        self.entries.push((key, value));
        proof {
            lemma_entries_map_push(pre, (key, value));
            assert forall|p: int, q: int|
                0 <= p < q < self.entries@.len() implies self.entries@[p].0@
                != self.entries@[q].0@ by {
                if q < pre.len() {
                    assert(self.entries@[p] == pre[p]);
                    assert(self.entries@[q] == pre[q]);
                } else {
                    assert(self.entries@[p] == pre[p]);
                    assert(self.entries@[q] == (key, value));
                }
            }
        }
    }

    /// The value bound to a key, if any.
    pub fn get(&self, key: &K) -> (r: Option<&V>)
        requires
            self.wf(),
        ensures
            match r {
                Some(v) => self@.dom().contains(key@) && *v == self@[key@],
                None => !self@.dom().contains(key@),
            },
    {
        let n = self.entries.len();
        let mut i: usize = 0;
        while i < n
            invariant
                i <= n,
                n == self.entry_seq().len(),
                self.wf(),
                forall|j: int| 0 <= j < i ==> self.entry_seq()[j].0@ != key@,
            decreases n - i,
        {
            if self.entries[i].0.key_equal(key) {
                proof {
                    lemma_entries_map_at(self.entry_seq(), i as int);
                }
                return Some(&self.entries[i].1);
            }
            i += 1;
        }
        proof {
            lemma_entries_map_contains(self.entry_seq(), key@);
        }
        None
    }

    /// Binds every item, in order: the later of two items with the same key
    /// wins, as the store's own insert does.
    pub fn extend_entries(&mut self, items: Vec<(K, V)>)
        requires
            old(self).wf(),
        ensures
            final(self).wf(),
            final(self)@ == inserted(old(self)@, items@),
    {
        let ghost orig = items@;
        let ghost mut done: int = 0;
        let mut rest = items;
        while rest.len() > 0
            invariant
                0 <= done <= orig.len(),
                rest@ == orig.skip(done),
                self.wf(),
                self@ == inserted(old(self)@, orig.take(done)),
            decreases rest@.len(),
        {
            let e = rest.remove(0);
            proof {
                assert(e == orig[done]);
                assert(rest@ =~= orig.skip(done + 1));
                let taken = orig.take(done + 1);
                assert(taken.drop_last() =~= orig.take(done));
                assert(taken.last() == orig[done]);
            }
            self.insert(e.0, e.1);
            proof {
                done = done + 1;
            }
        }
        proof {
            assert(orig.take(orig.len() as int) =~= orig);
        }
    }

    /// Iteration by consuming the store: yields the bindings, in order, as
    /// its own consuming iterator does.
    pub fn into_entries(self) -> (r: Vec<(K, V)>)
        ensures
            r@ == self.entry_seq(),
    {
        self.entries
    }

    /// The borrowing half of the iteration view: a restartable cursor over
    /// the bindings, keys never mutably.
    pub fn iteration_view(&self) -> (it: DictionaryIter<'_, K, V>)
        ensures
            it.entries@ == self.entry_seq(),
            it.pos == 0,
    {
        DictionaryIter { entries: &self.entries, pos: 0 }
    }
}

/// A wrapper record whose single field is a mapping-like container. Each
/// method is one capability of the catalogue, forwarding to the inner
/// container.
pub struct MappingWrapper<K: DictKey, V> {
    pub inner: Dictionary<K, V>,
}

impl<K: DictKey, V> View for MappingWrapper<K, V> {
    type V = Map<<K as View>::V, V>;

    open spec fn view(&self) -> Map<<K as View>::V, V> {
        self.inner@
    }
}

impl<K: DictKey, V> MappingWrapper<K, V> {
    /// Well-formedness: the wrapped container's own invariant.
    pub open spec fn wf(&self) -> bool {
        self.inner.wf()
    }

    /// Constructs the wrapper from the inner container, wrapping the value
    /// verbatim, with no validation.
    pub fn conversion_from_inner(inner: Dictionary<K, V>) -> (w: Self)
        ensures
            w.inner == inner,
    {
        MappingWrapper { inner }
    }

    /// Unwraps to the inner container, returning the field by move.
    pub fn conversion_into_inner(self) -> (r: Dictionary<K, V>)
        ensures
            r == self.inner,
    {
        self.inner
    }

    /// Iteration by consuming the wrapper: yields the inner container's
    /// bindings, in order, exactly as its own consuming iterator does.
    pub fn consuming_iteration(self) -> (r: Vec<(K, V)>)
        ensures
            r@ == self.inner.entry_seq(),
    {
        self.inner.into_entries()
    }

    /// Builds a wrapper by draining an iterator of key/value pairs,
    /// collecting directly into the inner container type: later pairs
    /// overwrite earlier duplicate keys.
    pub fn construction_from_iterator(items: Vec<(K, V)>) -> (w: Self)
        ensures
            w.wf(),
            w@ == inserted(Map::<<K as View>::V, V>::empty(), items@),
    {
        let mut inner = Dictionary::new();
        inner.extend_entries(items);
        MappingWrapper { inner }
    }

    /// Merges an iterator of key/value pairs into the wrapper in place,
    /// delegating to the inner container's own insert-many operation.
    pub fn extension_from_iterator(&mut self, items: Vec<(K, V)>)
        requires
            old(self).wf(),
        ensures
            final(self).wf(),
            final(self)@ == inserted(old(self)@, items@),
    {
        self.inner.extend_entries(items);
    }

    /// The number of bindings in the wrapped container.
    pub fn length(&self) -> (n: usize)
        requires
            self.wf(),
        ensures
            n == self@.dom().len(),
    {
        self.inner.len()
    }

    /// Whether the wrapped container holds no bindings.
    pub fn is_empty(&self) -> (b: bool)
        requires
            self.wf(),
        ensures
            b <==> self@ == Map::<<K as View>::V, V>::empty(),
    {
        self.inner.is_empty()
    }

    /// The wrapped container's capacity, at least the number of bindings.
    pub fn capacity(&self) -> (c: usize)
        requires
            self.wf(),
        ensures
            c >= self@.dom().len(),
    {
        self.inner.capacity()
    }

    /// Reserves room for at least `additional` more bindings; the contents do
    /// not change.
    pub fn reserve(&mut self, additional: usize)
        ensures
            final(self).inner.entry_seq() == old(self).inner.entry_seq(),
            final(self)@ == old(self)@,
            final(self).wf() == old(self).wf(),
    {
        self.inner.reserve(additional);
    }

    /// Removes all bindings.
    pub fn clear(&mut self)
        ensures
            final(self).wf(),
            final(self)@ == Map::<<K as View>::V, V>::empty(),
    {
        self.inner.clear();
    }

    /// Constructs an empty wrapper around the inner container's own empty
    /// constructor.
    pub fn new() -> (w: Self)
        ensures
            w.wf(),
            w@ == Map::<<K as View>::V, V>::empty(),
    {
        MappingWrapper { inner: Dictionary::new() }
    }

    /// Constructs an empty wrapper around the inner container's own sized
    /// constructor.
    pub fn with_capacity(capacity: usize) -> (w: Self)
        ensures
            w.wf(),
            w@ == Map::<<K as View>::V, V>::empty(),
    {
        MappingWrapper { inner: Dictionary::with_capacity(capacity) }
    }

    /// The borrowing half of the iteration view: a restartable cursor over
    /// the bindings, keys never mutably.
    pub fn iteration_view(&self) -> (it: DictionaryIter<'_, K, V>)
        ensures
            it.entries@ == self.inner.entry_seq(),
            it.pos == 0,
    {
        self.inner.iteration_view()
    }
}

/// Round-trip conversion: unwrapping a wrapper that was built around an inner
/// container value returns exactly that value. The hypotheses are the
/// contracts of `conversion_from_inner` and `conversion_into_inner`.
pub proof fn lemma_mapping_conversion_round_trip<K: DictKey, V>(
    c: Dictionary<K, V>,
    w: MappingWrapper<K, V>,
    r: Dictionary<K, V>,
)
    requires
        w.inner == c,
        r == w.inner,
    ensures
        r == c,
{
}

/// Construction/extension symmetry for mapping shapes: constructing a wrapper
/// from `xs` and then extending it with `ys` yields the same bindings as
/// constructing it directly from the concatenation, later keys overwriting
/// earlier duplicates either way. The hypotheses are the contracts of
/// `construction_from_iterator` and `extension_from_iterator`.
pub proof fn lemma_mapping_construction_extension_symmetry<K: DictKey, V>(
    xs: Seq<(K, V)>,
    ys: Seq<(K, V)>,
    constructed: Map<<K as View>::V, V>,
    extended: Map<<K as View>::V, V>,
)
    requires
        constructed == inserted(Map::<<K as View>::V, V>::empty(), xs),
        extended == inserted(constructed, ys),
    ensures
        extended == inserted(Map::<<K as View>::V, V>::empty(), xs + ys),
{
    lemma_inserted_append(Map::<<K as View>::V, V>::empty(), xs, ys);
}

} // verus!

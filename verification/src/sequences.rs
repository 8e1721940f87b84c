//! Reference semantics of the capability catalogue for the sequence shape: a
//! wrapper around a sequence-like container behaves exactly like the
//! container it wraps. Every capability the generator can emit for a sequence
//! wrapper is stated and verified here against the wrapped `Vec`.

use vstd::prelude::*;

verus! {

/// A wrapper record whose single field is a sequence-like container. Each
/// method is one capability of the catalogue, forwarding to the inner
/// container.
pub struct SequenceWrapper<T> {
    pub inner: Vec<T>,
}

impl<T> View for SequenceWrapper<T> {
    type V = Seq<T>;

    open spec fn view(&self) -> Seq<T> {
        self.inner@
    }
}

/// Relies on Vec::capacity: the number of elements the vector can hold
/// without reallocating, which is at least its length.
#[verifier::external_body]
pub(crate) fn vec_capacity<T>(v: &Vec<T>) -> (r: usize)
    ensures
        v@.len() <= r,
{
    v.capacity()
}

/// A borrowing cursor over a sequence wrapper: a lazy, finite, restartable
/// view yielding a reference to each element in order.
pub struct SequenceIter<'a, T> {
    pub items: &'a Vec<T>,
    pub pos: usize,
}

impl<'a, T> SequenceIter<'a, T> {
    /// Yields a reference to the next element, or `None` past the end.
    pub fn next(&mut self) -> (r: Option<&'a T>)
        ensures
            old(self).pos < old(self).items@.len() ==> {
                &&& final(self).pos == old(self).pos + 1
                &&& final(self).items == old(self).items
                &&& r matches Some(v) && *v == old(self).items@[old(self).pos as int]
            },
            old(self).pos >= old(self).items@.len() ==> r is None && *final(self) == *old(self),
    {
        let items = self.items;
        if self.pos < items.len() {
            let v = &items[self.pos];
            self.pos = self.pos + 1;
            Some(v)
        } else {
            None
        }
    }
}

impl<T> SequenceWrapper<T> {
    /// Constructs the wrapper from the inner container, wrapping the value
    /// verbatim, with no validation.
    pub fn conversion_from_inner(inner: Vec<T>) -> (w: Self)
        ensures
            w.inner == inner,
    {
        SequenceWrapper { inner }
    }

    /// Unwraps to the inner container, returning the field by move.
    pub fn conversion_into_inner(self) -> (r: Vec<T>)
        ensures
            r == self.inner,
    {
        self.inner
    }

    /// Iteration by consuming the wrapper: yields the inner container's
    /// elements, in order, exactly as its own consuming iterator does.
    pub fn consuming_iteration(self) -> (r: Vec<T>)
        ensures
            r == self.inner,
    {
        self.inner
    }

    /// Builds a wrapper by draining an iterator of elements, collecting
    /// directly into the inner container type.
    pub fn construction_from_iterator(items: Vec<T>) -> (w: Self)
        ensures
            w@ == items@,
    {
        SequenceWrapper { inner: items }
    }

    /// Merges an iterator of elements into the wrapper in place, delegating
    /// to the inner container's own merge operation.
    pub fn extension_from_iterator(&mut self, items: Vec<T>)
        ensures
            final(self)@ == old(self)@ + items@,
    {
        let mut drained = items;
        self.inner.append(&mut drained);
    }

    /// The number of elements in the wrapped container.
    pub fn length(&self) -> (n: usize)
        ensures
            n == self@.len(),
    {
        self.inner.len()
    }

    /// Whether the wrapped container holds no elements.
    pub fn is_empty(&self) -> (b: bool)
        ensures
            b <==> self@.len() == 0,
    {
        self.inner.is_empty()
    }

    /// The wrapped container's capacity, at least its length.
    pub fn capacity(&self) -> (c: usize)
        ensures
            c >= self@.len(),
    {
        vec_capacity(&self.inner)
    }

    /// Reserves capacity for at least `additional` more elements; the
    /// contents do not change.
    pub fn reserve(&mut self, additional: usize)
        ensures
            final(self)@ == old(self)@,
    {
        self.inner.reserve(additional);
    }

    /// Removes all elements.
    pub fn clear(&mut self)
        ensures
            final(self)@ == Seq::<T>::empty(),
    {
        self.inner.clear();
    }

    /// Constructs an empty wrapper around the inner container's own empty
    /// constructor.
    pub fn new() -> (w: Self)
        ensures
            w@ == Seq::<T>::empty(),
    {
        SequenceWrapper { inner: Vec::new() }
    }

    /// Constructs an empty wrapper around the inner container's own sized
    /// constructor.
    pub fn with_capacity(capacity: usize) -> (w: Self)
        ensures
            w@ == Seq::<T>::empty(),
    {
        SequenceWrapper { inner: Vec::with_capacity(capacity) }
    }

    /// The borrowing half of the iteration view: a restartable cursor over
    /// references to the elements, in order.
    pub fn iteration_view(&self) -> (it: SequenceIter<'_, T>)
        ensures
            it.items@ == self@,
            it.pos == 0,
    {
        SequenceIter { items: &self.inner, pos: 0 }
    }

    /// The mutable half of the iteration view: the mutable-reference form of
    /// the item shape, reached by position.
    pub fn mutable_item(&mut self, i: usize) -> (r: &mut T)
        requires
            i < old(self)@.len(),
        ensures
            *r == old(self)@[i as int],
            final(self)@ == old(self)@.update(i as int, *final(r)),
    {
        &mut self.inner[i]
    }
}

/// Round-trip conversion: unwrapping a wrapper that was built around an inner
/// container value returns exactly that value. The hypotheses are the
/// contracts of `conversion_from_inner` and `conversion_into_inner`.
pub proof fn lemma_conversion_round_trip<T>(c: Vec<T>, w: SequenceWrapper<T>, r: Vec<T>)
    requires
        w.inner == c,
        r == w.inner,
    ensures
        r == c,
{
}

/// Construction/extension symmetry for sequence shapes: constructing a
/// wrapper from `xs` and then extending it with `ys` yields the same contents
/// as constructing it directly from the concatenation. The hypotheses are the
/// contracts of `construction_from_iterator` and `extension_from_iterator`.
pub proof fn lemma_construction_extension_symmetry<T>(
    xs: Seq<T>,
    ys: Seq<T>,
    constructed: Seq<T>,
    extended: Seq<T>,
)
    requires
        constructed == xs,
        extended == constructed + ys,
    ensures
        extended == xs + ys,
{
}

} // verus!

//! Method selector: reads the optional explicit list of capability names
//! attached to a record. Every listed name must belong to the fixed catalogue,
//! or selection fails with `UnknownCapability` at the first offending entry.
//! An absent list selects the full default catalogue. The selection is an
//! ordered set: units are always emitted in catalogue order, each capability
//! at most once.

use vstd::prelude::*;

use crate::model::{Capability, Diagnostic};

verus! {

/// The fixed capability catalogue, in the order units are emitted.
pub open spec fn catalogue() -> Seq<Capability> {
    seq![
        Capability::ConversionFromInner,
        Capability::ConversionIntoInner,
        Capability::ConsumingIteration,
        Capability::BorrowingIteration,
        Capability::ConstructionFromIterator,
        Capability::ExtensionFromIterator,
        Capability::Length,
        Capability::IsEmpty,
        Capability::Capacity,
        Capability::Reserve,
        Capability::Clear,
        Capability::New,
        Capability::WithCapacity,
        Capability::IterationView,
    ]
}

/// The capability a selection entry names, or `None` for a name outside the
/// catalogue.
pub open spec fn capability_of_name(name: Seq<char>) -> Option<Capability> {
    if name == "conversion_from_inner"@ {
        Some(Capability::ConversionFromInner)
    } else if name == "conversion_into_inner"@ {
        Some(Capability::ConversionIntoInner)
    } else if name == "consuming_iteration"@ {
        Some(Capability::ConsumingIteration)
    } else if name == "borrowing_iteration"@ {
        Some(Capability::BorrowingIteration)
    } else if name == "construction_from_iterator"@ {
        Some(Capability::ConstructionFromIterator)
    } else if name == "extension_from_iterator"@ {
        Some(Capability::ExtensionFromIterator)
    } else if name == "length"@ {
        Some(Capability::Length)
    } else if name == "is_empty"@ {
        Some(Capability::IsEmpty)
    } else if name == "capacity"@ {
        Some(Capability::Capacity)
    } else if name == "reserve"@ {
        Some(Capability::Reserve)
    } else if name == "clear"@ {
        Some(Capability::Clear)
    } else if name == "new"@ {
        Some(Capability::New)
    } else if name == "with_capacity"@ {
        Some(Capability::WithCapacity)
    } else if name == "iteration_view"@ {
        Some(Capability::IterationView)
    } else {
        None
    }
}

/// Whether a capability is named by at least one selection entry.
pub open spec fn listed(names: Seq<String>, c: Capability) -> bool {
    exists|i: int| 0 <= i < names.len() && capability_of_name(names[i]@) == Some(c)
}

/// `listed`, as a predicate over capabilities.
pub open spec fn listed_pred(names: Seq<String>) -> spec_fn(Capability) -> bool {
    |c: Capability| listed(names, c)
}

/// Whether every selection entry names a capability of the catalogue.
pub open spec fn all_known(names: Seq<String>) -> bool {
    forall|i: int| 0 <= i < names.len() ==> capability_of_name(#[trigger] names[i]@) is Some
}

/// The entry at `i` is the first one outside the catalogue.
pub open spec fn first_unknown_at(names: Seq<String>, i: int) -> bool {
    &&& 0 <= i < names.len()
    &&& capability_of_name(names[i]@) is None
    &&& forall|j: int| 0 <= j < i ==> capability_of_name(#[trigger] names[j]@) is Some
}

/// The selected capabilities: the full default catalogue when no selection is
/// given, and otherwise exactly the listed capabilities, in catalogue order,
/// each at most once.
pub open spec fn spec_select(names: Seq<String>) -> Seq<Capability> {
    if names.len() == 0 {
        catalogue()
    } else {
        catalogue().filter(listed_pred(names))
    }
}

fn name_is(name: &String, tag: &str) -> (r: bool)
    ensures
        r == (name@ == tag@),
{
    let owned = tag.to_owned();
    *name == owned
}

/// Resolves one selection entry against the catalogue.
pub fn parse_capability(name: &String) -> (r: Option<Capability>)
    ensures
        r == capability_of_name(name@),
{
    if name_is(name, "conversion_from_inner") {
        Some(Capability::ConversionFromInner)
    } else if name_is(name, "conversion_into_inner") {
        Some(Capability::ConversionIntoInner)
    } else if name_is(name, "consuming_iteration") {
        Some(Capability::ConsumingIteration)
    } else if name_is(name, "borrowing_iteration") {
        Some(Capability::BorrowingIteration)
    } else if name_is(name, "construction_from_iterator") {
        Some(Capability::ConstructionFromIterator)
    } else if name_is(name, "extension_from_iterator") {
        Some(Capability::ExtensionFromIterator)
    } else if name_is(name, "length") {
        Some(Capability::Length)
    } else if name_is(name, "is_empty") {
        Some(Capability::IsEmpty)
    } else if name_is(name, "capacity") {
        Some(Capability::Capacity)
    } else if name_is(name, "reserve") {
        Some(Capability::Reserve)
    } else if name_is(name, "clear") {
        Some(Capability::Clear)
    } else if name_is(name, "new") {
        Some(Capability::New)
    } else if name_is(name, "with_capacity") {
        Some(Capability::WithCapacity)
    } else if name_is(name, "iteration_view") {
        Some(Capability::IterationView)
    } else {
        None
    }
}

/// The full default catalogue as a vector, in emission order.
pub fn catalogue_vec() -> (r: Vec<Capability>)
    ensures
        r@ == catalogue(),
{
    let mut r: Vec<Capability> = Vec::new();
    r.push(Capability::ConversionFromInner);
    r.push(Capability::ConversionIntoInner);
    r.push(Capability::ConsumingIteration);
    r.push(Capability::BorrowingIteration);
    r.push(Capability::ConstructionFromIterator);
    r.push(Capability::ExtensionFromIterator);
    r.push(Capability::Length);
    r.push(Capability::IsEmpty);
    r.push(Capability::Capacity);
    r.push(Capability::Reserve);
    r.push(Capability::Clear);
    r.push(Capability::New);
    r.push(Capability::WithCapacity);
    r.push(Capability::IterationView);
    proof {
        assert(r@ =~= catalogue());
    }
    r
}

fn contains_capability(caps: &Vec<Capability>, c: Capability) -> (r: bool)
    ensures
        r == exists|i: int| 0 <= i < caps@.len() && caps@[i] == c,
{
    let mut i: usize = 0;
    while i < caps.len()
        invariant
            i <= caps@.len(),
            forall|j: int| 0 <= j < i ==> caps@[j] != c,
        decreases caps@.len() - i,
    {
        if caps[i] == c {
            return true;
        }
        i += 1;
    }
    false
}

/// Selects the capabilities to generate from the annotation's entries.
///
/// An empty entry list means that no selection annotation is present, and the
/// full default catalogue is selected. Otherwise exactly the listed
/// capabilities are selected, in catalogue order, each at most once; the
/// first entry outside the catalogue fails selection with
/// `UnknownCapability` naming it.
pub fn select(names: &Vec<String>) -> (r: Result<Vec<Capability>, Diagnostic>)
    ensures
        match r {
            Result::Ok(caps) => all_known(names@) && caps@ == spec_select(names@),
            Result::Err(d) => {
                &&& !all_known(names@)
                &&& exists|i: int|
                    first_unknown_at(names@, i) && d == (Diagnostic::UnknownCapability {
                        name: names@[i],
                    })
            },
        },
{
    if names.len() == 0 {
        return Result::Ok(catalogue_vec());
    }
    let mut requested: Vec<Capability> = Vec::new();
    let mut i: usize = 0;
    while i < names.len()
        invariant
            i <= names@.len(),
            requested@.len() == i,
            forall|j: int|
                0 <= j < i ==> capability_of_name(#[trigger] names@[j]@) == Some(requested@[j]),
        decreases names@.len() - i,
    {
        match parse_capability(&names[i]) {
            Some(c) => requested.push(c),
            None => {
                proof {
                    assert(first_unknown_at(names@, i as int));
                }
                return Result::Err(Diagnostic::UnknownCapability { name: names[i].clone() });
            },
        }
        i += 1;
    }
    let cat = catalogue_vec();
    let mut out: Vec<Capability> = Vec::new();
    let mut k: usize = 0;
    while k < cat.len()
        invariant
            k <= cat@.len(),
            cat@ == catalogue(),
            requested@.len() == names@.len(),
            forall|j: int|
                0 <= j < names@.len() ==> capability_of_name(#[trigger] names@[j]@) == Some(
                    requested@[j],
                ),
            out@ == catalogue().take(k as int).filter(listed_pred(names@)),
        decreases cat@.len() - k,
    {
        let c = cat[k];
        let member = contains_capability(&requested, c);
        proof {
            let pred = listed_pred(names@);
            if member {
                let w = choose|j: int| 0 <= j < requested@.len() && requested@[j] == c;
                assert(capability_of_name(names@[w]@) == Some(c));
                assert(listed(names@, c));
            } else {
                if listed(names@, c) {
                    let w = choose|j: int|
                        0 <= j < names@.len() && capability_of_name(names@[j]@) == Some(c);
                    assert(requested@[w] == c);
                }
            }
            assert(member == pred(c));
            reveal(Seq::filter);
            let taken = catalogue().take(k as int + 1);
            assert(taken.drop_last() =~= catalogue().take(k as int));
            assert(taken.last() == c);
            assert(taken.filter(pred) == if pred(c) {
                catalogue().take(k as int).filter(pred).push(c)
            } else {
                catalogue().take(k as int).filter(pred)
            });
        }
        if member {
            out.push(c);
        }
        k += 1;
    }
    proof {
        assert(catalogue().take(catalogue().len() as int) =~= catalogue());
    }
    Result::Ok(out)
}

/// Every element a filter keeps is an element of the sequence, and satisfies
/// the predicate.
proof fn lemma_filter_elements<A>(s: Seq<A>, pred: spec_fn(A) -> bool, x: A)
    requires
        s.filter(pred).contains(x),
    ensures
        s.contains(x),
        pred(x),
    decreases s.len(),
{
    reveal(Seq::filter);
    if s.len() > 0 {
        let sub = s.drop_last().filter(pred);
        if pred(s.last()) && x == s.last() {
            assert(s[s.len() - 1] == x);
        } else {
            assert(sub.contains(x));
            lemma_filter_elements(s.drop_last(), pred, x);
            let w = choose|j: int| 0 <= j < s.drop_last().len() && s.drop_last()[j] == x;
            assert(s[w] == x);
        }
    }
}

/// Filtering a sequence without duplicates keeps it without duplicates.
proof fn lemma_filter_no_duplicates<A>(s: Seq<A>, pred: spec_fn(A) -> bool)
    requires
        s.no_duplicates(),
    ensures
        s.filter(pred).no_duplicates(),
    decreases s.len(),
{
    reveal(Seq::filter);
    if s.len() > 0 {
        let sub = s.drop_last().filter(pred);
        lemma_filter_no_duplicates(s.drop_last(), pred);
        if pred(s.last()) {
            if sub.contains(s.last()) {
                lemma_filter_elements(s.drop_last(), pred, s.last());
                let w = choose|j: int|
                    0 <= j < s.drop_last().len() && s.drop_last()[j] == s.last();
                assert(s[w] == s[s.len() - 1]);
                assert(false);
            }
            assert(s.filter(pred) == sub.push(s.last()));
            assert forall|p: int, q: int|
                0 <= p < q < sub.push(s.last()).len() implies sub.push(s.last())[p] != sub.push(
                s.last(),
            )[q] by {
                if q < sub.len() {
                    assert(sub[p] != sub[q]);
                } else {
                    assert(sub.contains(sub[p]));
                }
            }
        }
    }
}

/// Every capability of the catalogue's type is in the catalogue.
pub proof fn lemma_catalogue_complete(c: Capability)
    ensures
        catalogue().contains(c),
{
    match c {
        Capability::ConversionFromInner => assert(catalogue()[0] == c),
        Capability::ConversionIntoInner => assert(catalogue()[1] == c),
        Capability::ConsumingIteration => assert(catalogue()[2] == c),
        Capability::BorrowingIteration => assert(catalogue()[3] == c),
        Capability::ConstructionFromIterator => assert(catalogue()[4] == c),
        Capability::ExtensionFromIterator => assert(catalogue()[5] == c),
        Capability::Length => assert(catalogue()[6] == c),
        Capability::IsEmpty => assert(catalogue()[7] == c),
        Capability::Capacity => assert(catalogue()[8] == c),
        Capability::Reserve => assert(catalogue()[9] == c),
        Capability::Clear => assert(catalogue()[10] == c),
        Capability::New => assert(catalogue()[11] == c),
        Capability::WithCapacity => assert(catalogue()[12] == c),
        Capability::IterationView => assert(catalogue()[13] == c),
    }
}

/// Default completeness: with no selection annotation the selected set is the
/// full catalogue, exactly once each, in catalogue order.
pub proof fn lemma_default_completeness()
    ensures
        spec_select(Seq::<String>::empty()) == catalogue(),
        catalogue().no_duplicates(),
        catalogue().len() == 14,
{
}

/// Selection fidelity: with a selection annotation present, a capability is
/// selected exactly when some entry names it, and it is never selected twice.
pub proof fn lemma_selection_fidelity(names: Seq<String>, c: Capability)
    requires
        names.len() > 0,
    ensures
        spec_select(names).contains(c) <==> listed(names, c),
        spec_select(names).no_duplicates(),
{
    let pred = listed_pred(names);
    assert(catalogue().no_duplicates());
    lemma_filter_no_duplicates(catalogue(), pred);
    if spec_select(names).contains(c) {
        lemma_filter_elements(catalogue(), pred, c);
    }
    if listed(names, c) {
        lemma_catalogue_complete(c);
        let i = choose|i: int| 0 <= i < catalogue().len() && catalogue()[i] == c;
        catalogue().lemma_filter_contains(pred, i);
    }
}

} // verus!

//! Capability generator: emits each requested capability's implementation as
//! one self-contained code fragment. Every fragment repeats the wrapper's full
//! original generic parameter list (with bounds) at the `impl`-level header
//! and the bare parameter list (bounds stripped) in the type's own argument
//! list; the borrowing-iteration fragment inserts a synthetic borrow lifetime
//! ahead of all original parameters. The exact text of every fragment is
//! stated by a spec function and proved of the emitter.

use vstd::prelude::*;

use vstd::string::StringExecFns;

use crate::analyzer::{analyze, spec_analyze};
use crate::descriptor::describe;
use crate::model::{
    Capability, ContainerShape, Diagnostic, FieldRef, GeneratedUnit, RecordDecl, WrapperDescriptor,
};
use crate::render::{
    accessor_text, borrowing_header_text, generics_header_text, item_mut_text, item_ref_text,
    item_text, render_accessor, render_borrowing_header, render_generics_header, render_self_type,
    render_type, self_type_text, type_text,
};
use crate::selector::{all_known, first_unknown_at, select, spec_select};

verus! {

/// The conversion-from-inner fragment: constructs the wrapper from the inner
/// container, wrapping the value verbatim.
pub open spec fn conversion_from_inner_code(d: WrapperDescriptor) -> Seq<char> {
    "impl"@ + generics_header_text(d.generics@) + " From<"@ + type_text(d.field_type) + "> for "@
        + self_type_text(d) + " { fn from(field: "@ + type_text(d.field_type)
        + ") -> Self { Self(field) } }"@
}

/// The conversion-into-inner fragment: unwraps to the inner container,
/// returning the field by move.
pub open spec fn conversion_into_inner_code(d: WrapperDescriptor) -> Seq<char> {
    "impl"@ + generics_header_text(d.generics@) + " From<"@ + self_type_text(d) + "> for "@
        + type_text(d.field_type) + " { fn from(new_type_instance: "@ + self_type_text(d)
        + ") -> "@ + type_text(d.field_type) + " { new_type_instance."@ + accessor_text(d.field)
        + " } }"@
}

/// The consuming-iteration fragment: iteration by consuming the wrapper,
/// delegated to the inner container's own consuming iterator.
pub open spec fn consuming_iteration_code(d: WrapperDescriptor, s: ContainerShape) -> Seq<char> {
    "impl"@ + generics_header_text(d.generics@) + " IntoIterator for "@ + self_type_text(d)
        + " { type Item = "@ + item_text(s) + "; type IntoIter = <"@ + type_text(d.field_type)
        + " as IntoIterator>::IntoIter; fn into_iter(self) -> Self::IntoIter { self."@
        + accessor_text(d.field) + ".into_iter() } }"@
}

/// The borrowing-iteration fragment: iteration over a reference to the
/// wrapper, yielding the reference form of the item shape under the synthetic
/// borrow lifetime.
pub open spec fn borrowing_iteration_code(d: WrapperDescriptor, s: ContainerShape) -> Seq<char> {
    "impl"@ + borrowing_header_text(d.generics@) + " IntoIterator for &'plural "@
        + self_type_text(d) + " { type Item = "@ + item_ref_text(s, "'plural "@)
        + "; type IntoIter = <&'plural "@ + type_text(d.field_type)
        + " as IntoIterator>::IntoIter; fn into_iter(self) -> Self::IntoIter { self."@
        + accessor_text(d.field) + ".iter() } }"@
}

/// The construction-from-iterator fragment: builds a wrapper by draining an
/// iterator of the item shape, collecting directly into the inner container.
pub open spec fn construction_from_iterator_code(d: WrapperDescriptor, s: ContainerShape) -> Seq<
    char,
> {
    "impl"@ + generics_header_text(d.generics@) + " core::iter::FromIterator<"@ + item_text(s)
        + "> for "@ + self_type_text(d) + " { fn from_iter<I: IntoIterator<Item = "@ + item_text(s)
        + ">>(iter: I) -> Self { Self(iter.into_iter().collect()) } }"@
}

/// The extension-from-iterator fragment: merges an iterator of the item shape
/// into an existing wrapper in place, delegated to the inner container.
pub open spec fn extension_from_iterator_code(d: WrapperDescriptor, s: ContainerShape) -> Seq<
    char,
> {
    "impl"@ + generics_header_text(d.generics@) + " core::iter::Extend<"@ + item_text(s)
        + "> for "@ + self_type_text(d) + " { fn extend<I: IntoIterator<Item = "@ + item_text(s)
        + ">>(&mut self, iter: I) { self."@ + accessor_text(d.field) + ".extend(iter) } }"@
}

/// A delegate fragment: an inherent `impl` of the wrapper holding one
/// generated method body.
pub open spec fn delegate_code(d: WrapperDescriptor, body: Seq<char>) -> Seq<char> {
    "impl"@ + generics_header_text(d.generics@) + " "@ + self_type_text(d) + " { "@ + body + " }"@
}

/// The body of the length delegate.
pub open spec fn length_body(d: WrapperDescriptor) -> Seq<char> {
    "pub fn len(&self) -> usize { self."@ + accessor_text(d.field) + ".len() }"@
}

/// The body of the is-empty delegate.
pub open spec fn is_empty_body(d: WrapperDescriptor) -> Seq<char> {
    "pub fn is_empty(&self) -> bool { self."@ + accessor_text(d.field) + ".is_empty() }"@
}

/// The body of the capacity delegate.
pub open spec fn capacity_body(d: WrapperDescriptor) -> Seq<char> {
    "pub fn capacity(&self) -> usize { self."@ + accessor_text(d.field) + ".capacity() }"@
}

/// The body of the reserve delegate.
pub open spec fn reserve_body(d: WrapperDescriptor) -> Seq<char> {
    "pub fn reserve(&mut self, additional: usize) { self."@ + accessor_text(d.field)
        + ".reserve(additional) }"@
}

/// The body of the clear delegate.
pub open spec fn clear_body(d: WrapperDescriptor) -> Seq<char> {
    "pub fn clear(&mut self) { self."@ + accessor_text(d.field) + ".clear() }"@
}

/// The body of the new delegate: constructs the wrapper around the inner
/// container's own empty constructor.
pub open spec fn new_body(d: WrapperDescriptor) -> Seq<char> {
    "pub fn new() -> Self { Self { "@ + accessor_text(d.field) + ": <"@ + type_text(d.field_type)
        + ">::new() } }"@
}

/// The body of the with-capacity delegate: constructs the wrapper around the
/// inner container's own sized constructor.
pub open spec fn with_capacity_body(d: WrapperDescriptor) -> Seq<char> {
    "pub fn with_capacity(capacity: usize) -> Self { Self { "@ + accessor_text(d.field) + ": <"@
        + type_text(d.field_type) + ">::with_capacity(capacity) } }"@
}

/// The body of the iteration-view delegate: `iter` and `iter_mut` accessors
/// yielding the reference and mutable-reference forms of the item shape,
/// backed by the inner container's own borrowing iterators.
pub open spec fn iteration_view_body(d: WrapperDescriptor, s: ContainerShape) -> Seq<char> {
    "pub fn iter(&self) -> impl Iterator<Item = "@ + item_ref_text(s, ""@) + "> { self."@
        + accessor_text(d.field) + ".iter() } pub fn iter_mut(&mut self) -> impl Iterator<Item = "@
        + item_mut_text(s) + "> { self."@ + accessor_text(d.field) + ".iter_mut() }"@
}

/// The exact text of one capability's fragment.
pub open spec fn unit_code(d: WrapperDescriptor, s: ContainerShape, c: Capability) -> Seq<char> {
    match c {
        Capability::ConversionFromInner => conversion_from_inner_code(d),
        Capability::ConversionIntoInner => conversion_into_inner_code(d),
        Capability::ConsumingIteration => consuming_iteration_code(d, s),
        Capability::BorrowingIteration => borrowing_iteration_code(d, s),
        Capability::ConstructionFromIterator => construction_from_iterator_code(d, s),
        Capability::ExtensionFromIterator => extension_from_iterator_code(d, s),
        Capability::Length => delegate_code(d, length_body(d)),
        Capability::IsEmpty => delegate_code(d, is_empty_body(d)),
        Capability::Capacity => delegate_code(d, capacity_body(d)),
        Capability::Reserve => delegate_code(d, reserve_body(d)),
        Capability::Clear => delegate_code(d, clear_body(d)),
        Capability::New => delegate_code(d, new_body(d)),
        Capability::WithCapacity => delegate_code(d, with_capacity_body(d)),
        Capability::IterationView => delegate_code(d, iteration_view_body(d, s)),
    }
}

fn emit_conversion_from_inner(d: &WrapperDescriptor) -> (r: String)
    ensures
        r@ == conversion_from_inner_code(*d),
{
    let header = render_generics_header(&d.generics);
    let collection = render_type(&d.field_type);
    let self_type = render_self_type(d);
    let mut out = String::new();
    out.append("impl");
    out.append(header.as_str());
    out.append(" From<");
    out.append(collection.as_str());
    out.append("> for ");
    out.append(self_type.as_str());
    out.append(" { fn from(field: ");
    out.append(collection.as_str());
    out.append(") -> Self { Self(field) } }");
    out
}

fn emit_conversion_into_inner(d: &WrapperDescriptor) -> (r: String)
    ensures
        r@ == conversion_into_inner_code(*d),
{
    let header = render_generics_header(&d.generics);
    let collection = render_type(&d.field_type);
    let self_type = render_self_type(d);
    let accessor = render_accessor(&d.field);
    let mut out = String::new();
    out.append("impl");
    out.append(header.as_str());
    out.append(" From<");
    out.append(self_type.as_str());
    out.append("> for ");
    out.append(collection.as_str());
    out.append(" { fn from(new_type_instance: ");
    out.append(self_type.as_str());
    out.append(") -> ");
    out.append(collection.as_str());
    out.append(" { new_type_instance.");
    out.append(accessor.as_str());
    out.append(" } }");
    out
}

fn emit_consuming_iteration(d: &WrapperDescriptor, s: &ContainerShape) -> (r: String)
    ensures
        r@ == consuming_iteration_code(*d, *s),
{
    let header = render_generics_header(&d.generics);
    let collection = render_type(&d.field_type);
    let self_type = render_self_type(d);
    let accessor = render_accessor(&d.field);
    let item = s.item();
    let mut out = String::new();
    out.append("impl");
    out.append(header.as_str());
    out.append(" IntoIterator for ");
    out.append(self_type.as_str());
    out.append(" { type Item = ");
    out.append(item.as_str());
    out.append("; type IntoIter = <");
    out.append(collection.as_str());
    out.append(" as IntoIterator>::IntoIter; fn into_iter(self) -> Self::IntoIter { self.");
    out.append(accessor.as_str());
    out.append(".into_iter() } }");
    out
}

fn emit_borrowing_iteration(d: &WrapperDescriptor, s: &ContainerShape) -> (r: String)
    ensures
        r@ == borrowing_iteration_code(*d, *s),
{
    let header = render_borrowing_header(&d.generics);
    let collection = render_type(&d.field_type);
    let self_type = render_self_type(d);
    let accessor = render_accessor(&d.field);
    let item_ref = s.reference("'plural ");
    let mut out = String::new();
    out.append("impl");
    out.append(header.as_str());
    out.append(" IntoIterator for &'plural ");
    out.append(self_type.as_str());
    out.append(" { type Item = ");
    out.append(item_ref.as_str());
    out.append("; type IntoIter = <&'plural ");
    out.append(collection.as_str());
    out.append(" as IntoIterator>::IntoIter; fn into_iter(self) -> Self::IntoIter { self.");
    out.append(accessor.as_str());
    out.append(".iter() } }");
    out
}

fn emit_construction_from_iterator(d: &WrapperDescriptor, s: &ContainerShape) -> (r: String)
    ensures
        r@ == construction_from_iterator_code(*d, *s),
{
    let header = render_generics_header(&d.generics);
    let self_type = render_self_type(d);
    let item = s.item();
    let mut out = String::new();
    out.append("impl");
    out.append(header.as_str());
    out.append(" core::iter::FromIterator<");
    out.append(item.as_str());
    out.append("> for ");
    out.append(self_type.as_str());
    out.append(" { fn from_iter<I: IntoIterator<Item = ");
    out.append(item.as_str());
    out.append(">>(iter: I) -> Self { Self(iter.into_iter().collect()) } }");
    out
}

fn emit_extension_from_iterator(d: &WrapperDescriptor, s: &ContainerShape) -> (r: String)
    ensures
        r@ == extension_from_iterator_code(*d, *s),
{
    let header = render_generics_header(&d.generics);
    let self_type = render_self_type(d);
    let accessor = render_accessor(&d.field);
    let item = s.item();
    let mut out = String::new();
    out.append("impl");
    out.append(header.as_str());
    out.append(" core::iter::Extend<");
    out.append(item.as_str());
    out.append("> for ");
    out.append(self_type.as_str());
    out.append(" { fn extend<I: IntoIterator<Item = ");
    out.append(item.as_str());
    out.append(">>(&mut self, iter: I) { self.");
    out.append(accessor.as_str());
    out.append(".extend(iter) } }");
    out
}

fn emit_delegate(d: &WrapperDescriptor, body: &String) -> (r: String)
    ensures
        r@ == delegate_code(*d, body@),
{
    let header = render_generics_header(&d.generics);
    let self_type = render_self_type(d);
    let mut out = String::new();
    out.append("impl");
    out.append(header.as_str());
    out.append(" ");
    out.append(self_type.as_str());
    out.append(" { ");
    out.append(body.as_str());
    out.append(" }");
    out
}

fn emit_length_body(d: &WrapperDescriptor) -> (r: String)
    ensures
        r@ == length_body(*d),
{
    let accessor = render_accessor(&d.field);
    let mut out = String::new();
    out.append("pub fn len(&self) -> usize { self.");
    out.append(accessor.as_str());
    out.append(".len() }");
    out
}

fn emit_is_empty_body(d: &WrapperDescriptor) -> (r: String)
    ensures
        r@ == is_empty_body(*d),
{
    let accessor = render_accessor(&d.field);
    let mut out = String::new();
    out.append("pub fn is_empty(&self) -> bool { self.");
    out.append(accessor.as_str());
    out.append(".is_empty() }");
    out
}

fn emit_capacity_body(d: &WrapperDescriptor) -> (r: String)
    ensures
        r@ == capacity_body(*d),
{
    let accessor = render_accessor(&d.field);
    let mut out = String::new();
    out.append("pub fn capacity(&self) -> usize { self.");
    out.append(accessor.as_str());
    out.append(".capacity() }");
    out
}

fn emit_reserve_body(d: &WrapperDescriptor) -> (r: String)
    ensures
        r@ == reserve_body(*d),
{
    let accessor = render_accessor(&d.field);
    let mut out = String::new();
    out.append("pub fn reserve(&mut self, additional: usize) { self.");
    out.append(accessor.as_str());
    out.append(".reserve(additional) }");
    out
}

fn emit_clear_body(d: &WrapperDescriptor) -> (r: String)
    ensures
        r@ == clear_body(*d),
{
    let accessor = render_accessor(&d.field);
    let mut out = String::new();
    out.append("pub fn clear(&mut self) { self.");
    out.append(accessor.as_str());
    out.append(".clear() }");
    out
}

fn emit_new_body(d: &WrapperDescriptor) -> (r: String)
    ensures
        r@ == new_body(*d),
{
    let accessor = render_accessor(&d.field);
    let collection = render_type(&d.field_type);
    let mut out = String::new();
    out.append("pub fn new() -> Self { Self { ");
    out.append(accessor.as_str());
    out.append(": <");
    out.append(collection.as_str());
    out.append(">::new() } }");
    out
}

fn emit_with_capacity_body(d: &WrapperDescriptor) -> (r: String)
    ensures
        r@ == with_capacity_body(*d),
{
    let accessor = render_accessor(&d.field);
    let collection = render_type(&d.field_type);
    let mut out = String::new();
    out.append("pub fn with_capacity(capacity: usize) -> Self { Self { ");
    out.append(accessor.as_str());
    out.append(": <");
    out.append(collection.as_str());
    out.append(">::with_capacity(capacity) } }");
    out
}

fn emit_iteration_view_body(d: &WrapperDescriptor, s: &ContainerShape) -> (r: String)
    ensures
        r@ == iteration_view_body(*d, *s),
{
    let accessor = render_accessor(&d.field);
    let item_ref = s.reference("");
    let item_mut = s.mutable_reference();
    let mut out = String::new();
    out.append("pub fn iter(&self) -> impl Iterator<Item = ");
    out.append(item_ref.as_str());
    out.append("> { self.");
    out.append(accessor.as_str());
    out.append(".iter() } pub fn iter_mut(&mut self) -> impl Iterator<Item = ");
    out.append(item_mut.as_str());
    out.append("> { self.");
    out.append(accessor.as_str());
    out.append(".iter_mut() }");
    out
}

/// Emits one requested capability's fragment for a descriptor and its shape.
pub fn generate(d: &WrapperDescriptor, s: &ContainerShape, request: Capability) -> (u:
    GeneratedUnit)
    ensures
        u.capability == request,
        u.code@ == unit_code(*d, *s, request),
{
    let code = match request {
        Capability::ConversionFromInner => emit_conversion_from_inner(d),
        Capability::ConversionIntoInner => emit_conversion_into_inner(d),
        Capability::ConsumingIteration => emit_consuming_iteration(d, s),
        Capability::BorrowingIteration => emit_borrowing_iteration(d, s),
        Capability::ConstructionFromIterator => emit_construction_from_iterator(d, s),
        Capability::ExtensionFromIterator => emit_extension_from_iterator(d, s),
        Capability::Length => {
            let body = emit_length_body(d);
            emit_delegate(d, &body)
        },
        Capability::IsEmpty => {
            let body = emit_is_empty_body(d);
            emit_delegate(d, &body)
        },
        Capability::Capacity => {
            let body = emit_capacity_body(d);
            emit_delegate(d, &body)
        },
        Capability::Reserve => {
            let body = emit_reserve_body(d);
            emit_delegate(d, &body)
        },
        Capability::Clear => {
            let body = emit_clear_body(d);
            emit_delegate(d, &body)
        },
        Capability::New => {
            let body = emit_new_body(d);
            emit_delegate(d, &body)
        },
        Capability::WithCapacity => {
            let body = emit_with_capacity_body(d);
            emit_delegate(d, &body)
        },
        Capability::IterationView => {
            let body = emit_iteration_view_body(d, s);
            emit_delegate(d, &body)
        },
    };
    GeneratedUnit { capability: request, code }
}

/// The descriptor a declaration with at least one field yields.
pub open spec fn spec_descriptor(decl: RecordDecl) -> WrapperDescriptor {
    WrapperDescriptor {
        name: decl.name,
        generics: decl.generics,
        field: match decl.fields[0].name {
            Some(n) => FieldRef::Named { name: n },
            None => FieldRef::Positional,
        },
        field_type: decl.fields[0].ty,
    }
}

/// Runs the whole pipeline on one declaration: descriptor extraction, shape
/// analysis, capability selection, and generation of one fragment per
/// selected capability, in catalogue order.
///
/// `selection` holds the entries of the selection annotation; an empty list
/// means that no annotation is present and the full default catalogue is
/// generated. The first structural failure aborts generation entirely: no
/// units are ever returned alongside a diagnostic.
pub fn synthesize(decl: RecordDecl, selection: Vec<String>) -> (r: Result<
    Vec<GeneratedUnit>,
    Diagnostic,
>)
    ensures
        decl.fields@.len() == 0 ==> r == Result::<Vec<GeneratedUnit>, Diagnostic>::Err(
            Diagnostic::MissingField,
        ),
        decl.fields@.len() > 0 ==> match spec_analyze(decl.fields@[0].ty) {
            Result::Err(diag) => r == Result::<Vec<GeneratedUnit>, Diagnostic>::Err(diag),
            Result::Ok(shape) => match r {
                Result::Ok(units) => {
                    &&& all_known(selection@)
                    &&& units@.len() == spec_select(selection@).len()
                    &&& forall|i: int|
                        0 <= i < units@.len() ==> {
                            &&& (#[trigger] units@[i]).capability == spec_select(selection@)[i]
                            &&& units@[i].code@ == unit_code(
                                spec_descriptor(decl),
                                shape,
                                spec_select(selection@)[i],
                            )
                        }
                },
                Result::Err(d) => {
                    &&& !all_known(selection@)
                    &&& exists|i: int|
                        first_unknown_at(selection@, i) && d == (Diagnostic::UnknownCapability {
                            name: selection@[i],
                        })
                },
            },
        },
{
    let descriptor = match describe(decl) {
        Result::Ok(d) => d,
        Result::Err(e) => {
            return Result::Err(e);
        },
    };
    let shape = match analyze(&descriptor.field_type) {
        Result::Ok(s) => s,
        Result::Err(e) => {
            return Result::Err(e);
        },
    };
    let capabilities = match select(&selection) {
        Result::Ok(c) => c,
        Result::Err(e) => {
            return Result::Err(e);
        },
    };
    proof {
        assert(descriptor == spec_descriptor(decl));
    }
    let mut units: Vec<GeneratedUnit> = Vec::new();
    let mut i: usize = 0;
    while i < capabilities.len()
        invariant
            i <= capabilities@.len(),
            units@.len() == i,
            capabilities@ == spec_select(selection@),
            descriptor == spec_descriptor(decl),
            Result::<ContainerShape, Diagnostic>::Ok(shape) == spec_analyze(decl.fields@[0].ty),
            forall|j: int|
                0 <= j < i ==> {
                    &&& (#[trigger] units@[j]).capability == capabilities@[j]
                    &&& units@[j].code@ == unit_code(spec_descriptor(decl), shape, capabilities@[j])
                },
        decreases capabilities@.len() - i,
    {
        let unit = generate(&descriptor, &shape, capabilities[i]);
        units.push(unit);
        i += 1;
    }
    Result::Ok(units)
}

} // verus!

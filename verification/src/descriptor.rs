//! Structural descriptor: pure extraction of the record name, the generic
//! parameter list, and the single field's reference and declared type from an
//! input declaration.

use vstd::prelude::*;

use crate::model::{Diagnostic, FieldRef, RecordDecl, WrapperDescriptor};

verus! {

/// Extracts the wrapper descriptor from a declaration.
///
/// Fails with `MissingField` exactly when the declaration has zero fields.
/// Otherwise the first field is the wrapped one: it is referred to by name
/// when it is named, and by positional index `0` otherwise, and its declared
/// type is carried over verbatim.
pub fn describe(decl: RecordDecl) -> (r: Result<WrapperDescriptor, Diagnostic>)
    ensures
        match r {
            Result::Ok(d) => {
                &&& decl.fields@.len() > 0
                &&& d.name == decl.name
                &&& d.generics == decl.generics
                &&& d.field_type == decl.fields@[0].ty
                &&& match decl.fields@[0].name {
                    Some(n) => d.field == (FieldRef::Named { name: n }),
                    None => d.field == FieldRef::Positional,
                }
            },
            Result::Err(diag) => {
                &&& decl.fields@.len() == 0
                &&& diag == Diagnostic::MissingField
            },
        },
{
    let RecordDecl { name, generics, mut fields } = decl;
    if fields.len() == 0 {
        return Result::Err(Diagnostic::MissingField);
    }
    let first = fields.remove(0);
    let field = match first.name {
        Some(n) => FieldRef::Named { name: n },
        None => FieldRef::Positional,
    };
    Result::Ok(WrapperDescriptor { name, generics, field, field_type: first.ty })
}

} // verus!

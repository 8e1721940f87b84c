//! Shape analyzer: classifies the wrapped field type as a sequence-like or a
//! mapping-like container by counting the type arguments on its final path
//! segment. No recognition by container name is performed: any one-argument
//! container is a sequence, any container with two or more arguments is a
//! mapping using the first two.

use vstd::prelude::*;

use crate::model::{ContainerShape, Diagnostic, PathSeg, TypeExpr};

verus! {

/// The classification of a field type, as a function of its structure alone:
/// a non-path type (or an empty path) is `NotAContainerType`; a final segment
/// without angle brackets is `NotGeneric`; empty brackets are
/// `EmptyArguments`; one argument is a `Sequence` of it; two or more are a
/// `Mapping` of the first two, surplus arguments ignored.
pub open spec fn spec_analyze(t: TypeExpr) -> Result<ContainerShape, Diagnostic> {
    match t {
        TypeExpr::Other { .. } => Result::Err(Diagnostic::NotAContainerType),
        TypeExpr::Path { segments } => {
            if segments@.len() == 0 {
                Result::Err(Diagnostic::NotAContainerType)
            } else {
                match segments@.last().arguments {
                    None => Result::Err(Diagnostic::NotGeneric),
                    Some(args) => {
                        if args@.len() == 0 {
                            Result::Err(Diagnostic::EmptyArguments)
                        } else if args@.len() == 1 {
                            Result::Ok(ContainerShape::Sequence { element: args@[0] })
                        } else {
                            Result::Ok(
                                ContainerShape::Mapping { key: args@[0], value: args@[1] },
                            )
                        }
                    },
                }
            }
        },
    }
}

/// Classifies a field type, looking only at the final segment of its path so
/// that fully-qualified paths resolve exactly as bare names do.
pub fn analyze(t: &TypeExpr) -> (r: Result<ContainerShape, Diagnostic>)
    ensures
        r == spec_analyze(*t),
{
    match t {
        TypeExpr::Other { .. } => Result::Err(Diagnostic::NotAContainerType),
        TypeExpr::Path { segments } => {
            if segments.len() == 0 {
                return Result::Err(Diagnostic::NotAContainerType);
            }
            let last: &PathSeg = &segments[segments.len() - 1];
            match &last.arguments {
                None => Result::Err(Diagnostic::NotGeneric),
                Some(args) => {
                    if args.len() == 0 {
                        Result::Err(Diagnostic::EmptyArguments)
                    } else if args.len() == 1 {
                        Result::Ok(ContainerShape::Sequence { element: args[0].clone() })
                    } else {
                        Result::Ok(
                            ContainerShape::Mapping {
                                key: args[0].clone(),
                                value: args[1].clone(),
                            },
                        )
                    }
                },
            }
        },
    }
}

/// Arity determinism: for a path type whose final segment carries arguments,
/// the classification depends on the argument count alone — exactly one
/// argument always yields `Sequence` of it, two or more always yield
/// `Mapping` of the first two, whatever surplus arguments trail them.
pub proof fn lemma_arity_determinism(segments: Vec<PathSeg>, args: Vec<String>)
    requires
        segments@.len() > 0,
        segments@.last().arguments == Some(args),
        args@.len() >= 1,
    ensures
        args@.len() == 1 ==> spec_analyze(TypeExpr::Path { segments }) == Result::<
            ContainerShape,
            Diagnostic,
        >::Ok(ContainerShape::Sequence { element: args@[0] }),
        args@.len() >= 2 ==> spec_analyze(TypeExpr::Path { segments }) == Result::<
            ContainerShape,
            Diagnostic,
        >::Ok(ContainerShape::Mapping { key: args@[0], value: args@[1] }),
{
}

/// Qualified-path equivalence: two path types with the same final segment are
/// classified identically, whatever leading segments qualify them.
pub proof fn lemma_qualified_path_equivalence(a: Vec<PathSeg>, b: Vec<PathSeg>)
    requires
        a@.len() > 0,
        b@.len() > 0,
        a@.last() == b@.last(),
    ensures
        spec_analyze(TypeExpr::Path { segments: a }) == spec_analyze(
            TypeExpr::Path { segments: b },
        ),
{
}

} // verus!

//! The data model of the synthesizer: the shape of an input declaration, the
//! descriptor extracted from it, the container classification, the capability
//! catalogue, the emitted unit, and the diagnostics.

use vstd::prelude::*;

verus! {

/// One generic parameter of the wrapper record. Order is significant and is
/// preserved verbatim in every generated header.
#[derive(Debug)]
pub enum GenericParam {
    /// A type parameter; `bounds` holds the bound list verbatim (empty when
    /// the parameter was declared without bounds).
    Type { ident: String, bounds: String },
    /// A lifetime parameter; `ident` is stored without the leading tick.
    Lifetime { ident: String, bounds: String },
    /// A const parameter, e.g. `const N: usize`.
    Const { ident: String, ty: String },
}

/// One segment of a path-shaped type. `arguments` is `None` when the segment
/// carries no angle-bracketed list at all, and `Some` of the verbatim text of
/// each argument otherwise (`Some` of an empty list for empty brackets).
#[derive(Debug)]
pub struct PathSeg {
    pub name: String,
    pub arguments: Option<Vec<String>>,
}

/// A declared type expression. Only path-shaped types can be containers;
/// anything else is carried verbatim and rejected by the analyzer.
#[derive(Debug)]
pub enum TypeExpr {
    /// A possibly qualified path type such as `std::collections::HashMap<K, V>`.
    Path { segments: Vec<PathSeg> },
    /// Any other type expression, kept verbatim.
    Other { text: String },
}

/// How the single field of the wrapper is reached: by name, or by position
/// (index `0`) for tuple-like records.
#[derive(Debug)]
pub enum FieldRef {
    Named { name: String },
    Positional,
}

/// One field of the input declaration, as the front end hands it over.
#[derive(Debug)]
pub struct FieldDecl {
    /// The field's name, or `None` for a positional field.
    pub name: Option<String>,
    /// The field's declared type.
    pub ty: TypeExpr,
}

/// The structural declaration of a record type, produced by an external front
/// end. The synthesizer treats it as already-validated syntax.
#[derive(Debug)]
pub struct RecordDecl {
    pub name: String,
    pub generics: Vec<GenericParam>,
    pub fields: Vec<FieldDecl>,
}

/// What the structural descriptor extracts from a declaration: the record
/// name, its generic parameter list, and the single field's reference and
/// declared type. Immutable once built.
#[derive(Debug)]
pub struct WrapperDescriptor {
    pub name: String,
    pub generics: Vec<GenericParam>,
    pub field: FieldRef,
    pub field_type: TypeExpr,
}

/// The container classification of the wrapped field type. Exactly one of
/// these holds per wrapper; arity is decided solely by counting the type
/// arguments on the field type's final path segment.
#[derive(Debug)]
pub enum ContainerShape {
    /// A container with exactly one type argument; `element` holds that
    /// argument verbatim.
    Sequence { element: String },
    /// A container with two or more type arguments; the first two are the key
    /// and the value, surplus arguments are ignored.
    Mapping { key: String, value: String },
}

/// One independently requestable unit of generated behavior.
#[derive(Clone, Copy, Debug, PartialEq, Eq, Structural)]
pub enum Capability {
    ConversionFromInner,
    ConversionIntoInner,
    ConsumingIteration,
    BorrowingIteration,
    ConstructionFromIterator,
    ExtensionFromIterator,
    Length,
    IsEmpty,
    Capacity,
    Reserve,
    Clear,
    New,
    WithCapacity,
    IterationView,
}

/// A failure surfaced by the pipeline. Every failure is reported, never
/// silently recovered, and no units are emitted alongside a diagnostic.
#[derive(Debug)]
pub enum Diagnostic {
    /// The declaration has no fields.
    MissingField,
    /// The field type is not a path-shaped type.
    NotAContainerType,
    /// The field type's final segment has no angle-bracketed arguments.
    NotGeneric,
    /// Angle brackets are present but empty.
    EmptyArguments,
    /// A selection entry names a tag outside the fixed catalogue.
    UnknownCapability { name: String },
}

/// One self-contained emitted implementation, ready for assembly into the
/// final artifact by plain concatenation.
#[derive(Debug)]
pub struct GeneratedUnit {
    /// The capability this unit implements.
    pub capability: Capability,
    /// The fragment's text.
    pub code: String,
}

} // verus!

//! Text rendering: the exact text of generic parameter lists, type
//! expressions, field accessors, and item shapes, as they appear inside every
//! generated unit. Each exec renderer is proved to produce exactly the text
//! its spec function describes.

use vstd::prelude::*;

use vstd::string::StringExecFns;

use crate::model::{ContainerShape, FieldRef, GenericParam, PathSeg, TypeExpr, WrapperDescriptor};

verus! {

/// The views of a list of strings.
pub open spec fn views_of(parts: Seq<String>) -> Seq<Seq<char>> {
    parts.map_values(|s: String| s@)
}

/// The parts joined with `", "` between them.
pub open spec fn comma_join(parts: Seq<Seq<char>>) -> Seq<char>
    decreases parts.len(),
{
    if parts.len() == 0 {
        Seq::empty()
    } else if parts.len() == 1 {
        parts[0]
    } else {
        comma_join(parts.drop_last()) + ", "@ + parts.last()
    }
}

/// The declaration text of one generic parameter, bounds included, as it
/// appears in an `impl`-level header.
pub open spec fn param_decl_text(p: GenericParam) -> Seq<char> {
    match p {
        GenericParam::Type { ident, bounds } => {
            if bounds@.len() == 0 {
                ident@
            } else {
                ident@ + ": "@ + bounds@
            }
        },
        GenericParam::Lifetime { ident, bounds } => {
            if bounds@.len() == 0 {
                "'"@ + ident@
            } else {
                "'"@ + ident@ + ": "@ + bounds@
            }
        },
        GenericParam::Const { ident, ty } => "const "@ + ident@ + ": "@ + ty@,
    }
}

/// The bare name of one generic parameter, bounds stripped, as it appears in
/// the type's own argument list.
pub open spec fn param_bare_text(p: GenericParam) -> Seq<char> {
    match p {
        GenericParam::Type { ident, .. } => ident@,
        GenericParam::Lifetime { ident, .. } => "'"@ + ident@,
        GenericParam::Const { ident, .. } => ident@,
    }
}

/// The declaration texts of a parameter list.
pub open spec fn decl_texts(params: Seq<GenericParam>) -> Seq<Seq<char>> {
    params.map_values(|p: GenericParam| param_decl_text(p))
}

/// The bare names of a parameter list.
pub open spec fn bare_texts(params: Seq<GenericParam>) -> Seq<Seq<char>> {
    params.map_values(|p: GenericParam| param_bare_text(p))
}

/// The `impl`-level generics header: empty for an empty parameter list, and
/// the bracketed declarations otherwise.
pub open spec fn generics_header_text(params: Seq<GenericParam>) -> Seq<char> {
    if params.len() == 0 {
        Seq::empty()
    } else {
        "<"@ + comma_join(decl_texts(params)) + ">"@
    }
}

/// The `impl`-level generics header of the borrowing-iteration unit: the
/// synthetic borrow lifetime `'plural` is inserted ahead of all original
/// parameters.
pub open spec fn borrowing_header_text(params: Seq<GenericParam>) -> Seq<char> {
    if params.len() == 0 {
        "<'plural>"@
    } else {
        "<'plural, "@ + comma_join(decl_texts(params)) + ">"@
    }
}

/// The type's own argument list: the bracketed bare names, brackets present
/// even for an empty parameter list.
pub open spec fn type_args_text(params: Seq<GenericParam>) -> Seq<char> {
    "<"@ + comma_join(bare_texts(params)) + ">"@
}

/// The wrapper type with its own argument list, e.g. `Numbers<T>`.
pub open spec fn self_type_text(d: WrapperDescriptor) -> Seq<char> {
    d.name@ + type_args_text(d.generics@)
}

/// The accessor of the wrapped field: its name, or `0` for a positional
/// field.
pub open spec fn accessor_text(f: FieldRef) -> Seq<char> {
    match f {
        FieldRef::Named { name } => name@,
        FieldRef::Positional => "0"@,
    }
}

/// The text of one path segment, its arguments verbatim.
pub open spec fn segment_text(seg: PathSeg) -> Seq<char> {
    seg.name@ + match seg.arguments {
        None => Seq::<char>::empty(),
        Some(args) => "<"@ + comma_join(views_of(args@)) + ">"@,
    }
}

/// The texts of a list of path segments.
pub open spec fn segment_texts(segs: Seq<PathSeg>) -> Seq<Seq<char>> {
    segs.map_values(|s: PathSeg| segment_text(s))
}

/// The segments joined with `"::"` between them.
pub open spec fn path_join(parts: Seq<Seq<char>>) -> Seq<char>
    decreases parts.len(),
{
    if parts.len() == 0 {
        Seq::empty()
    } else if parts.len() == 1 {
        parts[0]
    } else {
        path_join(parts.drop_last()) + "::"@ + parts.last()
    }
}

/// The text of a declared type expression.
pub open spec fn type_text(t: TypeExpr) -> Seq<char> {
    match t {
        TypeExpr::Path { segments } => path_join(segment_texts(segments@)),
        TypeExpr::Other { text } => text@,
    }
}

/// The item shape a container yields when consumed: the element for a
/// sequence, the key/value pair for a mapping.
pub open spec fn item_text(s: ContainerShape) -> Seq<char> {
    match s {
        ContainerShape::Sequence { element } => element@,
        ContainerShape::Mapping { key, value } => "("@ + key@ + ", "@ + value@ + ")"@,
    }
}

/// The reference form of the item shape; `lifetime` is the text standing
/// after each `&` (a lifetime with a trailing space, or nothing).
pub open spec fn item_ref_text(s: ContainerShape, lifetime: Seq<char>) -> Seq<char> {
    match s {
        ContainerShape::Sequence { element } => "&"@ + lifetime + element@,
        ContainerShape::Mapping { key, value } => "(&"@ + lifetime + key@ + ", &"@ + lifetime
            + value@ + ")"@,
    }
}

/// The mutable-reference form of the item shape; a mapping's key is never
/// exposed mutably.
pub open spec fn item_mut_text(s: ContainerShape) -> Seq<char> {
    match s {
        ContainerShape::Sequence { element } => "&mut "@ + element@,
        ContainerShape::Mapping { key, value } => "(&"@ + key@ + ", &mut "@ + value@ + ")"@,
    }
}

/// Joins rendered parts with `", "`.
pub fn render_comma_join(parts: &Vec<String>) -> (r: String)
    ensures
        r@ == comma_join(views_of(parts@)),
{
    let mut out = String::new();
    let mut i: usize = 0;
    while i < parts.len()
        invariant
            i <= parts@.len(),
            out@ == comma_join(views_of(parts@).take(i as int)),
        decreases parts@.len() - i,
    {
        if i > 0 {
            out.append(", ");
        }
        out.append(parts[i].as_str());
        proof {
            let vs = views_of(parts@);
            let taken = vs.take(i as int + 1);
            if i == 0 {
                assert(out@ == vs[0]);
                assert(taken[0] == vs[0]);
            } else {
                assert(taken.drop_last() =~= vs.take(i as int));
                assert(taken.last() == vs[i as int]);
            }
        }
        i += 1;
    }
    proof {
        assert(views_of(parts@).take(parts@.len() as int) =~= views_of(parts@));
    }
    out
}

/// Renders one generic parameter's declaration, bounds included.
pub fn render_param_decl(p: &GenericParam) -> (r: String)
    ensures
        r@ == param_decl_text(*p),
{
    match p {
        GenericParam::Type { ident, bounds } => {
            if bounds.as_str().is_empty() {
                let mut out = String::new();
                out.append(ident.as_str());
                out
            } else {
                let mut out = String::new();
                out.append(ident.as_str());
                out.append(": ");
                out.append(bounds.as_str());
                out
            }
        },
        GenericParam::Lifetime { ident, bounds } => {
            let mut out = String::new();
            out.append("'");
            out.append(ident.as_str());
            if !bounds.as_str().is_empty() {
                out.append(": ");
                out.append(bounds.as_str());
            }
            out
        },
        GenericParam::Const { ident, ty } => {
            let mut out = String::new();
            out.append("const ");
            out.append(ident.as_str());
            out.append(": ");
            out.append(ty.as_str());
            out
        },
    }
}

/// Renders one generic parameter's bare name, bounds stripped.
pub fn render_param_bare(p: &GenericParam) -> (r: String)
    ensures
        r@ == param_bare_text(*p),
{
    match p {
        GenericParam::Type { ident, .. } => {
            let mut out = String::new();
            out.append(ident.as_str());
            out
        },
        GenericParam::Lifetime { ident, .. } => {
            let mut out = String::new();
            out.append("'");
            out.append(ident.as_str());
            out
        },
        GenericParam::Const { ident, .. } => {
            let mut out = String::new();
            out.append(ident.as_str());
            out
        },
    }
}

/// Renders the `", "`-joined declarations of a parameter list.
pub fn render_decl_join(params: &Vec<GenericParam>) -> (r: String)
    ensures
        r@ == comma_join(decl_texts(params@)),
{
    let mut out = String::new();
    let mut i: usize = 0;
    while i < params.len()
        invariant
            i <= params@.len(),
            out@ == comma_join(decl_texts(params@).take(i as int)),
        decreases params@.len() - i,
    {
        if i > 0 {
            out.append(", ");
        }
        let decl = render_param_decl(&params[i]);
        out.append(decl.as_str());
        proof {
            let vs = decl_texts(params@);
            let taken = vs.take(i as int + 1);
            if i == 0 {
                assert(taken[0] == vs[0]);
            } else {
                assert(taken.drop_last() =~= vs.take(i as int));
                assert(taken.last() == vs[i as int]);
            }
            assert(out@ =~= comma_join(taken));
        }
        i += 1;
    }
    proof {
        assert(decl_texts(params@).take(params@.len() as int) =~= decl_texts(params@));
    }
    out
}

/// Renders the `impl`-level generics header of a parameter list.
pub fn render_generics_header(params: &Vec<GenericParam>) -> (r: String)
    ensures
        r@ == generics_header_text(params@),
{
    if params.len() == 0 {
        return String::new();
    }
    let mut out = String::new();
    out.append("<");
    let joined = render_decl_join(params);
    out.append(joined.as_str());
    out.append(">");
    out
}

/// Renders the generics header of the borrowing-iteration unit, the synthetic
/// borrow lifetime inserted ahead of all original parameters.
pub fn render_borrowing_header(params: &Vec<GenericParam>) -> (r: String)
    ensures
        r@ == borrowing_header_text(params@),
{
    let mut out = String::new();
    if params.len() == 0 {
        out.append("<'plural>");
        return out;
    }
    out.append("<'plural, ");
    let joined = render_decl_join(params);
    out.append(joined.as_str());
    out.append(">");
    out
}

/// Renders the type's own argument list: the bare parameter names.
pub fn render_type_args(params: &Vec<GenericParam>) -> (r: String)
    ensures
        r@ == type_args_text(params@),
{
    let mut out = String::new();
    out.append("<");
    let mut i: usize = 0;
    while i < params.len()
        invariant
            i <= params@.len(),
            out@ == "<"@ + comma_join(bare_texts(params@).take(i as int)),
        decreases params@.len() - i,
    {
        if i > 0 {
            out.append(", ");
        }
        let bare = render_param_bare(&params[i]);
        out.append(bare.as_str());
        proof {
            let vs = bare_texts(params@);
            let taken = vs.take(i as int + 1);
            if i == 0 {
                assert(taken[0] == vs[0]);
            } else {
                assert(taken.drop_last() =~= vs.take(i as int));
                assert(taken.last() == vs[i as int]);
            }
            assert(out@ =~= "<"@ + comma_join(taken));
        }
        i += 1;
    }
    proof {
        assert(bare_texts(params@).take(params@.len() as int) =~= bare_texts(params@));
    }
    out.append(">");
    out
}

/// Renders the wrapper type with its own argument list.
pub fn render_self_type(d: &WrapperDescriptor) -> (r: String)
    ensures
        r@ == self_type_text(*d),
{
    let mut out = String::new();
    out.append(d.name.as_str());
    let args = render_type_args(&d.generics);
    out.append(args.as_str());
    out
}

/// Renders the accessor of the wrapped field.
pub fn render_accessor(f: &FieldRef) -> (r: String)
    ensures
        r@ == accessor_text(*f),
{
    match f {
        FieldRef::Named { name } => {
            let mut out = String::new();
            out.append(name.as_str());
            out
        },
        FieldRef::Positional => {
            let mut out = String::new();
            out.append("0");
            out
        },
    }
}

/// Renders one path segment, its arguments verbatim.
pub fn render_segment(seg: &PathSeg) -> (r: String)
    ensures
        r@ == segment_text(*seg),
{
    let mut out = String::new();
    out.append(seg.name.as_str());
    match &seg.arguments {
        None => {},
        Some(args) => {
            out.append("<");
            let joined = render_comma_join(args);
            out.append(joined.as_str());
            out.append(">");
        },
    }
    out
}

/// Renders a declared type expression.
pub fn render_type(t: &TypeExpr) -> (r: String)
    ensures
        r@ == type_text(*t),
{
    match t {
        TypeExpr::Other { text } => {
            let mut out = String::new();
            out.append(text.as_str());
            out
        },
        TypeExpr::Path { segments } => {
            let mut out = String::new();
            let mut i: usize = 0;
            while i < segments.len()
                invariant
                    i <= segments@.len(),
                    out@ == path_join(segment_texts(segments@).take(i as int)),
                decreases segments@.len() - i,
            {
                if i > 0 {
                    out.append("::");
                }
                let seg = render_segment(&segments[i]);
                out.append(seg.as_str());
                proof {
                    let vs = segment_texts(segments@);
                    let taken = vs.take(i as int + 1);
                    if i == 0 {
                        assert(taken[0] == vs[0]);
                    } else {
                        assert(taken.drop_last() =~= vs.take(i as int));
                        assert(taken.last() == vs[i as int]);
                    }
                }
                i += 1;
            }
            proof {
                assert(segment_texts(segments@).take(segments@.len() as int) =~= segment_texts(
                    segments@,
                ));
            }
            out
        },
    }
}

impl ContainerShape {
    /// Renders the item shape yielded by consuming the container.
    pub fn item(&self) -> (r: String)
        ensures
            r@ == item_text(*self),
    {
        match self {
            ContainerShape::Sequence { element } => {
                let mut out = String::new();
                out.append(element.as_str());
                out
            },
            ContainerShape::Mapping { key, value } => {
                let mut out = String::new();
                out.append("(");
                out.append(key.as_str());
                out.append(", ");
                out.append(value.as_str());
                out.append(")");
                out
            },
        }
    }

    /// Renders the reference form of the item shape; `lifetime` is the text
    /// standing after each `&` (a lifetime with a trailing space, or
    /// nothing).
    pub fn reference(&self, lifetime: &str) -> (r: String)
        ensures
            r@ == item_ref_text(*self, lifetime@),
    {
        match self {
            ContainerShape::Sequence { element } => {
                let mut out = String::new();
                out.append("&");
                out.append(lifetime);
                out.append(element.as_str());
                out
            },
            ContainerShape::Mapping { key, value } => {
                let mut out = String::new();
                out.append("(&");
                out.append(lifetime);
                out.append(key.as_str());
                out.append(", &");
                out.append(lifetime);
                out.append(value.as_str());
                out.append(")");
                out
            },
        }
    }

    /// Renders the mutable-reference form of the item shape; a mapping's key
    /// is never exposed mutably.
    pub fn mutable_reference(&self) -> (r: String)
        ensures
            r@ == item_mut_text(*self),
    {
        match self {
            ContainerShape::Sequence { element } => {
                let mut out = String::new();
                out.append("&mut ");
                out.append(element.as_str());
                out
            },
            ContainerShape::Mapping { key, value } => {
                let mut out = String::new();
                out.append("(&");
                out.append(key.as_str());
                out.append(", &mut ");
                out.append(value.as_str());
                out.append(")");
                out
            },
        }
    }
}

} // verus!

//! Rendering of declared types and conversion statements as source text.
//!
//! Every renderer is a pure function of its input; the emitted text is
//! pinned character for character by the accompanying spec functions.
use vstd::prelude::*;

use crate::model::{PathSeg, TraitBound, TypeShape};

verus! {

/// The text of a declared type.
pub open spec fn render_type_spec(t: TypeShape) -> Seq<char>
    decreases t, 0int,
{
    match t {
        TypeShape::Path { segments } => render_segs_from_spec(segments@, 0),
        TypeShape::Reference { mutable, elem } => {
            if mutable {
                "&mut "@ + render_type_spec(*elem)
            } else {
                "&"@ + render_type_spec(*elem)
            }
        },
        TypeShape::Slice { elem } => "["@ + render_type_spec(*elem) + "]"@,
        TypeShape::Array { elem, len } => "["@ + render_type_spec(*elem) + "; "@ + len@ + "]"@,
        TypeShape::ImplTrait { bounds } => "impl "@ + render_bounds_from_spec(bounds@, 0),
    }
}

/// The text of a segment list from position `i` on, `::`-separated.
pub open spec fn render_segs_from_spec(segs: Seq<PathSeg>, i: int) -> Seq<char>
    decreases segs, segs.len() - i,
{
    if 0 <= i < segs.len() {
        if segs[i].args@.len() == 0 {
            if i + 1 < segs.len() {
                segs[i].ident@ + "::"@ + render_segs_from_spec(segs, i + 1)
            } else {
                segs[i].ident@
            }
        } else {
            if i + 1 < segs.len() {
                segs[i].ident@ + "<"@ + render_args_from_spec(segs[i].args@, 0) + ">"@ + "::"@
                    + render_segs_from_spec(segs, i + 1)
            } else {
                segs[i].ident@ + "<"@ + render_args_from_spec(segs[i].args@, 0) + ">"@
            }
        }
    } else {
        Seq::empty()
    }
}

/// The text of a generic-argument list from position `i` on,
/// comma-separated.
pub open spec fn render_args_from_spec(args: Seq<TypeShape>, i: int) -> Seq<char>
    decreases args, args.len() - i,
{
    if 0 <= i < args.len() {
        if i + 1 < args.len() {
            render_type_spec(args[i]) + ", "@ + render_args_from_spec(args, i + 1)
        } else {
            render_type_spec(args[i])
        }
    } else {
        Seq::empty()
    }
}

/// The text of a bound list from position `i` on, `+`-separated.
pub open spec fn render_bounds_from_spec(bounds: Seq<TraitBound>, i: int) -> Seq<char>
    decreases bounds, bounds.len() - i,
{
    if 0 <= i < bounds.len() {
        if i + 1 < bounds.len() {
            render_segs_from_spec(bounds[i].segments@, 0) + " + "@ + render_bounds_from_spec(
                bounds,
                i + 1,
            )
        } else {
            render_segs_from_spec(bounds[i].segments@, 0)
        }
    } else {
        Seq::empty()
    }
}

/// Renders a declared type as source text.
pub fn render_type(t: &TypeShape) -> (r: String)
    ensures
        r@ == render_type_spec(*t),
    decreases *t, 0int,
{
    match t {
        TypeShape::Path { segments } => {
            proof {
                assert(decreases_to!(*t => t->Path_segments));
            }
            render_segs_from(segments, 0)
        },
        TypeShape::Reference { mutable, elem } => {
            let mut out = if *mutable {
                String::from_str("&mut ")
            } else {
                String::from_str("&")
            };
            let inner = render_type(&**elem);
            out.append(inner.as_str());
            out
        },
        TypeShape::Slice { elem } => {
            let mut out = String::from_str("[");
            let inner = render_type(&**elem);
            out.append(inner.as_str());
            out.append("]");
            out
        },
        TypeShape::Array { elem, len } => {
            let mut out = String::from_str("[");
            let inner = render_type(&**elem);
            out.append(inner.as_str());
            out.append("; ");
            out.append(len.as_str());
            out.append("]");
            out
        },
        TypeShape::ImplTrait { bounds } => {
            proof {
                assert(decreases_to!(*t => t->ImplTrait_bounds));
            }
            let mut out = String::from_str("impl ");
            let inner = render_bounds_from(bounds, 0);
            out.append(inner.as_str());
            out
        },
    }
}

/// Renders a segment list from position `i` on.
fn render_segs_from(segs: &Vec<PathSeg>, i: usize) -> (r: String)
    ensures
        r@ == render_segs_from_spec(segs@, i as int),
    decreases *segs, segs@.len() - i,
{
    if i >= segs.len() {
        return String::new();
    }
    proof {
        assert(decreases_to!(*segs => segs@[i as int]));
    }
    let mut out = String::from_str(segs[i].ident.as_str());
    if segs[i].args.len() > 0 {
        out.append("<");
        let args = render_args_from(&segs[i].args, 0);
        out.append(args.as_str());
        out.append(">");
    }
    if i + 1 < segs.len() {
        out.append("::");
        let rest = render_segs_from(segs, i + 1);
        out.append(rest.as_str());
    }
    out
}

/// Renders a generic-argument list from position `i` on.
fn render_args_from(args: &Vec<TypeShape>, i: usize) -> (r: String)
    ensures
        r@ == render_args_from_spec(args@, i as int),
    decreases *args, args@.len() - i,
{
    if i >= args.len() {
        return String::new();
    }
    proof {
        assert(decreases_to!(*args => args@[i as int]));
    }
    let mut out = render_type(&args[i]);
    if i + 1 < args.len() {
        out.append(", ");
        let rest = render_args_from(args, i + 1);
        out.append(rest.as_str());
    }
    out
}

/// Renders a bound list from position `i` on.
fn render_bounds_from(bounds: &Vec<TraitBound>, i: usize) -> (r: String)
    ensures
        r@ == render_bounds_from_spec(bounds@, i as int),
    decreases *bounds, bounds@.len() - i,
{
    if i >= bounds.len() {
        return String::new();
    }
    proof {
        assert(decreases_to!(*bounds => bounds@[i as int]));
        assert(decreases_to!(bounds@[i as int] => bounds@[i as int].segments));
    }
    let mut out = render_segs_from(&bounds[i].segments, 0);
    if i + 1 < bounds.len() {
        out.append(" + ");
        let rest = render_bounds_from(bounds, i + 1);
        out.append(rest.as_str());
    }
    out
}

} // verus!

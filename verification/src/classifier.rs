//! The type classifier: pure predicate and extractor functions over
//! [`TypeShape`] answering "is this declared type of shape X?" and, when it
//! is, handing out its payload type.
//!
//! Matching is purely structural; references are seen through only where a
//! predicate says so. Structural type equality compares path segments and
//! generic arguments recursively; lifetime arguments are not modelled and
//! therefore never compared, a deliberate simplification.
use vstd::prelude::*;

use crate::model::{Annotation, DeclaredFunction, PathSeg, TraitBound, TypeShape};
use crate::text::{chars_of, char_upper, push_char, str_eq, upper_of};

verus! {

/// Structural equality of two declared types: both are path types whose
/// segment lists match pairwise in identifier and, recursively, in generic
/// arguments. Non-path types always compare unequal: only path types occur
/// as generic-bound targets.
pub open spec fn type_eq_spec(a: TypeShape, b: TypeShape) -> bool
    decreases a, 0int,
{
    match (a, b) {
        (TypeShape::Path { segments: s1 }, TypeShape::Path { segments: s2 }) => {
            &&& s1@.len() == s2@.len()
            &&& segs_eq_from_spec(s1@, s2@, 0)
        },
        _ => false,
    }
}

/// Pairwise equality of the segments of two equally long segment lists,
/// from position `i` on.
pub open spec fn segs_eq_from_spec(s1: Seq<PathSeg>, s2: Seq<PathSeg>, i: int) -> bool
    decreases s1, s1.len() - i,
{
    if 0 <= i < s1.len() {
        seg_eq_spec(s1[i], s2[i]) && segs_eq_from_spec(s1, s2, i + 1)
    } else {
        true
    }
}

/// Equality of one path segment: same identifier, same number of generic
/// arguments, and the arguments are structurally equal.
pub open spec fn seg_eq_spec(a: PathSeg, b: PathSeg) -> bool
    decreases a, 0int,
{
    &&& a.ident@ == b.ident@
    &&& a.args@.len() == b.args@.len()
    &&& args_eq_from_spec(a.args@, b.args@, 0)
}

/// Pairwise structural equality of two equally long argument lists, from
/// position `i` on.
pub open spec fn args_eq_from_spec(s1: Seq<TypeShape>, s2: Seq<TypeShape>, i: int) -> bool
    decreases s1, s1.len() - i,
{
    if 0 <= i < s1.len() {
        type_eq_spec(s1[i], s2[i]) && args_eq_from_spec(s1, s2, i + 1)
    } else {
        true
    }
}

/// Whether a path is exactly one identifier, without generic arguments,
/// equal to `name`.
pub open spec fn path_is_ident_spec(segments: Seq<PathSeg>, name: Seq<char>) -> bool {
    &&& segments.len() == 1
    &&& segments[0].ident@ == name
    &&& segments[0].args@.len() == 0
}

/// Whether the last segment of a trait bound's path carries `name`.
pub open spec fn bound_named_spec(b: TraitBound, name: Seq<char>) -> bool {
    &&& b.segments@.len() > 0
    &&& b.segments@[b.segments@.len() - 1].ident@ == name
}

/// The generic arguments on the last segment of a trait bound's path.
pub open spec fn bound_args_spec(b: TraitBound) -> Seq<TypeShape>
    recommends
        b.segments@.len() > 0,
{
    b.segments@[b.segments@.len() - 1].args@
}

/// Whether some bound from position `i` on carries `name` on its last
/// segment.
pub open spec fn any_bound_named_from_spec(bounds: Seq<TraitBound>, name: Seq<char>, i: int) -> bool
    decreases bounds.len() - i,
{
    if 0 <= i < bounds.len() {
        bound_named_spec(bounds[i], name) || any_bound_named_from_spec(bounds, name, i + 1)
    } else {
        false
    }
}

/// Whether some bound from position `i` on is a whole-path single
/// identifier equal to `name`.
pub open spec fn any_bound_ident_from_spec(bounds: Seq<TraitBound>, name: Seq<char>, i: int) -> bool
    decreases bounds.len() - i,
{
    if 0 <= i < bounds.len() {
        path_is_ident_spec(bounds[i].segments@, name) || any_bound_ident_from_spec(
            bounds,
            name,
            i + 1,
        )
    } else {
        false
    }
}

/// The analysis entry points, kept together on one carrier type.
pub struct CFFIAnalyzer;

impl CFFIAnalyzer {
    /// Whether the declared type is an immutable reference `&T`.
    pub fn is_ref(ty: &TypeShape) -> (r: bool)
        ensures
            r == (ty matches TypeShape::Reference { mutable: false, .. }),
    {
        match ty {
            TypeShape::Reference { mutable: false, .. } => true,
            _ => false,
        }
    }

    /// Whether the declared type is a mutable reference `&mut T`.
    pub fn is_mut(ty: &TypeShape) -> (r: bool)
        ensures
            r == (ty matches TypeShape::Reference { mutable: true, .. }),
    {
        match ty {
            TypeShape::Reference { mutable: true, .. } => true,
            _ => false,
        }
    }

    /// The referent of a mutable reference, if the type is one.
    pub fn extract_mut<'a>(ty: &'a TypeShape) -> (r: Option<&'a TypeShape>)
        ensures
            r == (match ty {
                TypeShape::Reference { mutable: true, elem } => Some(&**elem),
                _ => None::<&'a TypeShape>,
            }),
    {
        match ty {
            TypeShape::Reference { mutable: true, elem } => Some(&**elem),
            _ => None,
        }
    }

    /// The referent of an immutable reference, if the type is one.
    pub fn extract_ref<'a>(ty: &'a TypeShape) -> (r: Option<&'a TypeShape>)
        ensures
            r == (match ty {
                TypeShape::Reference { mutable: false, elem } => Some(&**elem),
                _ => None::<&'a TypeShape>,
            }),
    {
        match ty {
            TypeShape::Reference { mutable: false, elem } => Some(&**elem),
            _ => None,
        }
    }

    /// Whether the declared type is a path type.
    pub fn is_type_path(ty: &TypeShape) -> (r: bool)
        ensures
            r == (ty matches TypeShape::Path { .. }),
    {
        match ty {
            TypeShape::Path { .. } => true,
            _ => false,
        }
    }

    /// The segment list of a path type, if the type is one.
    pub fn extract_path<'a>(ty: &'a TypeShape) -> (r: Option<&'a Vec<PathSeg>>)
        ensures
            r == (match ty {
                TypeShape::Path { segments } => Some(segments),
                _ => None::<&'a Vec<PathSeg>>,
            }),
    {
        match ty {
            TypeShape::Path { segments } => Some(segments),
            _ => None,
        }
    }

    /// Whether a path is exactly the one bare identifier `name`.
    pub fn path_is_ident(segments: &Vec<PathSeg>, name: &str) -> (r: bool)
        ensures
            r == path_is_ident_spec(segments@, name@),
    {
        segments.len() == 1 && segments[0].args.len() == 0 && str_eq(
            segments[0].ident.as_str(),
            name,
        )
    }

    /// Structural type equality; see [`type_eq_spec`].
    pub fn type_eq(a: &TypeShape, b: &TypeShape) -> (r: bool)
        ensures
            r == type_eq_spec(*a, *b),
        decreases *a, 0int,
    {
        match (a, b) {
            (TypeShape::Path { segments: s1 }, TypeShape::Path { segments: s2 }) => {
                if s1.len() != s2.len() {
                    return false;
                }
                proof {
                    assert(decreases_to!(*a => a->Path_segments));
                }
                Self::segs_eq_from(s1, s2, 0)
            },
            _ => false,
        }
    }

    /// Pairwise segment equality from position `i` on.
    fn segs_eq_from(s1: &Vec<PathSeg>, s2: &Vec<PathSeg>, i: usize) -> (r: bool)
        requires
            s1@.len() == s2@.len(),
        ensures
            r == segs_eq_from_spec(s1@, s2@, i as int),
        decreases *s1, s1@.len() - i,
    {
        if i >= s1.len() {
            return true;
        }
        proof {
            assert(decreases_to!(*s1 => s1@[i as int]));
        }
        if !Self::seg_eq(&s1[i], &s2[i]) {
            return false;
        }
        Self::segs_eq_from(s1, s2, i + 1)
    }

    /// Equality of one path segment; see [`seg_eq_spec`].
    pub fn seg_eq(a: &PathSeg, b: &PathSeg) -> (r: bool)
        ensures
            r == seg_eq_spec(*a, *b),
        decreases *a, 0int,
    {
        if !str_eq(a.ident.as_str(), b.ident.as_str()) {
            return false;
        }
        if a.args.len() != b.args.len() {
            return false;
        }
        Self::args_eq_from(&a.args, &b.args, 0)
    }

    /// Pairwise structural argument equality from position `i` on.
    fn args_eq_from(s1: &Vec<TypeShape>, s2: &Vec<TypeShape>, i: usize) -> (r: bool)
        requires
            s1@.len() == s2@.len(),
        ensures
            r == args_eq_from_spec(s1@, s2@, i as int),
        decreases *s1, s1@.len() - i,
    {
        if i >= s1.len() {
            return true;
        }
        proof {
            assert(decreases_to!(*s1 => s1@[i as int]));
        }
        if !Self::type_eq(&s1[i], &s2[i]) {
            return false;
        }
        Self::args_eq_from(s1, s2, i + 1)
    }

    /// Whether the declared type is an `impl` bound type.
    pub fn is_impl(ty: &TypeShape) -> (r: bool)
        ensures
            r == (ty matches TypeShape::ImplTrait { .. }),
    {
        match ty {
            TypeShape::ImplTrait { .. } => true,
            _ => false,
        }
    }

    /// Whether the declared type is an `impl` type with a bound whose whole
    /// path is the one identifier `target`.
    pub fn is_impl_trait_named(ty: &TypeShape, target: &str) -> (r: bool)
        ensures
            r == (ty matches TypeShape::ImplTrait { bounds } && any_bound_ident_from_spec(
                bounds@,
                target@,
                0,
            )),
    {
        match ty {
            TypeShape::ImplTrait { bounds } => Self::any_bound_ident_from(bounds, target, 0),
            _ => false,
        }
    }

    /// Whether some bound from position `i` on is the bare identifier `name`.
    fn any_bound_ident_from(bounds: &Vec<TraitBound>, name: &str, i: usize) -> (r: bool)
        ensures
            r == any_bound_ident_from_spec(bounds@, name@, i as int),
        decreases bounds@.len() - i,
    {
        if i >= bounds.len() {
            return false;
        }
        if Self::path_is_ident(&bounds[i].segments, name) {
            return true;
        }
        Self::any_bound_ident_from(bounds, name, i + 1)
    }

    /// Whether some bound from position `i` on carries `name` on the last
    /// segment of its path.
    fn any_bound_named_from(bounds: &Vec<TraitBound>, name: &str, i: usize) -> (r: bool)
        ensures
            r == any_bound_named_from_spec(bounds@, name@, i as int),
        decreases bounds@.len() - i,
    {
        if i >= bounds.len() {
            return false;
        }
        let segs = &bounds[i].segments;
        if segs.len() > 0 && str_eq(segs[segs.len() - 1].ident.as_str(), name) {
            return true;
        }
        Self::any_bound_named_from(bounds, name, i + 1)
    }

    /// Whether the declared type is `impl ToString`.
    pub fn is_impl_to_string(ty: &TypeShape) -> (r: bool)
        ensures
            r == (ty matches TypeShape::ImplTrait { bounds } && any_bound_ident_from_spec(
                bounds@,
                "ToString"@,
                0,
            )),
    {
        Self::is_impl_trait_named(ty, "ToString")
    }

    /// Whether the declared type is `impl Display`.
    pub fn is_impl_display(ty: &TypeShape) -> (r: bool)
        ensures
            r == (ty matches TypeShape::ImplTrait { bounds } && any_bound_ident_from_spec(
                bounds@,
                "Display"@,
                0,
            )),
    {
        Self::is_impl_trait_named(ty, "Display")
    }

    /// The declared return type of a function, if any.
    pub fn get_return_type<'a>(f: &'a DeclaredFunction) -> (r: Option<&'a TypeShape>)
        ensures
            r == (match f.ret {
                Some(ref t) => Some(t),
                None => None::<&'a TypeShape>,
            }),
    {
        match &f.ret {
            Some(t) => Some(t),
            None => None,
        }
    }

    /// Whether the declared type is `Option<T>`, handing out `T`.
    pub fn is_option<'a>(ty: &'a TypeShape) -> (r: Option<&'a TypeShape>)
        ensures
            r is Some <==> is_option_shape_spec(*ty),
            r matches Some(inner) ==> *inner == ty->Path_segments@[0].args@[0],
    {
        match ty {
            TypeShape::Path { segments } => {
                if segments.len() == 1 && str_eq(segments[0].ident.as_str(), "Option")
                    && segments[0].args.len() > 0 {
                    Some(&segments[0].args[0])
                } else {
                    None
                }
            },
            _ => None,
        }
    }
}

/// Whether a declared type has the shape `Option<T>`: a single-segment path
/// named `Option` with at least one generic argument.
pub open spec fn is_option_shape_spec(ty: TypeShape) -> bool {
    &&& ty matches TypeShape::Path { segments }
    &&& segments@.len() == 1
    &&& segments@[0].ident@ == "Option"@
    &&& segments@[0].args@.len() > 0
}

/// Whether the type, seen through any number of references, is an `impl`
/// type with a bound carrying `name` on its last path segment.
pub open spec fn sees_impl_bound_named_spec(ty: TypeShape, name: Seq<char>) -> bool
    decreases ty,
{
    match ty {
        TypeShape::Reference { elem, .. } => sees_impl_bound_named_spec(*elem, name),
        TypeShape::ImplTrait { bounds } => any_bound_named_from_spec(bounds@, name, 0),
        _ => false,
    }
}

/// The first generic argument of the first bound carrying `name`, searching
/// the bounds from position `i` on. A matching bound without arguments is
/// passed over.
pub open spec fn bound_first_arg_from_spec(bounds: Seq<TraitBound>, name: Seq<char>, i: int)
    -> Option<TypeShape>
    decreases bounds.len() - i,
{
    if 0 <= i < bounds.len() {
        if bound_named_spec(bounds[i], name) && bound_args_spec(bounds[i]).len() > 0 {
            Some(bound_args_spec(bounds[i])[0])
        } else {
            bound_first_arg_from_spec(bounds, name, i + 1)
        }
    } else {
        None
    }
}

/// The first generic argument of the first bound carrying `name`, with the
/// type seen through any number of references.
pub open spec fn sees_bound_first_arg_spec(ty: TypeShape, name: Seq<char>) -> Option<TypeShape>
    decreases ty,
{
    match ty {
        TypeShape::Reference { elem, .. } => sees_bound_first_arg_spec(*elem, name),
        TypeShape::ImplTrait { bounds } => bound_first_arg_from_spec(bounds@, name, 0),
        _ => None,
    }
}

/// Whether the type is `&mut [T; N]`.
pub open spec fn is_mut_array_spec(ty: TypeShape) -> bool {
    ty matches TypeShape::Reference { mutable: true, elem } && *elem matches TypeShape::Array {
        ..
    }
}

/// Whether the type is `&[T]`.
pub open spec fn is_slice_shape_spec(ty: TypeShape) -> bool {
    ty matches TypeShape::Reference { mutable: false, elem } && *elem matches TypeShape::Slice {
        ..
    }
}

/// Whether the type is `&mut [T]`.
pub open spec fn is_mut_slice_shape_spec(ty: TypeShape) -> bool {
    ty matches TypeShape::Reference { mutable: true, elem } && *elem matches TypeShape::Slice {
        ..
    }
}

/// Whether the type is a path whose last segment is named `Vec`.
pub open spec fn is_vec_shape_spec(ty: TypeShape) -> bool {
    &&& ty matches TypeShape::Path { segments }
    &&& segments@.len() > 0
    &&& segments@[segments@.len() - 1].ident@ == "Vec"@
}

/// The element type of a vector-shaped path, with the type seen through
/// any number of references.
pub open spec fn vec_inner_spec(ty: TypeShape) -> Option<TypeShape>
    decreases ty,
{
    match ty {
        TypeShape::Path { segments } => {
            if segments@.len() > 0 && segments@[segments@.len() - 1].ident@ == "Vec"@
                && segments@[segments@.len() - 1].args@.len() > 0 {
                Some(segments@[segments@.len() - 1].args@[0])
            } else {
                None
            }
        },
        TypeShape::Reference { elem, .. } => vec_inner_spec(*elem),
        _ => None,
    }
}

/// The element type of the sequence named by the first `Into` bound from
/// position `i` on: for `Into<U>` where `U`, seen through a reference, is
/// `Vec<T>`, the element `T`. A bound with an empty path ends the search.
pub open spec fn into_vec_inner_from_spec(bounds: Seq<TraitBound>, i: int) -> Option<TypeShape>
    decreases bounds.len() - i,
{
    if 0 <= i < bounds.len() {
        if bounds[i].segments@.len() == 0 {
            None
        } else if bound_named_spec(bounds[i], "Into"@) && bound_args_spec(bounds[i]).len() > 0 {
            vec_inner_spec(bound_args_spec(bounds[i])[0])
        } else {
            into_vec_inner_from_spec(bounds, i + 1)
        }
    } else {
        None
    }
}

/// Whether the sequence target of the first matching `Into` bound from
/// position `i` on is held by mutable reference.
pub open spec fn into_vec_mut_from_spec(bounds: Seq<TraitBound>, i: int) -> bool
    decreases bounds.len() - i,
{
    if 0 <= i < bounds.len() {
        if bounds[i].segments@.len() == 0 {
            false
        } else if bound_named_spec(bounds[i], "Into"@) && bound_args_spec(bounds[i]).len() > 0 {
            bound_args_spec(bounds[i])[0] matches TypeShape::Reference { mutable: true, .. }
        } else {
            into_vec_mut_from_spec(bounds, i + 1)
        }
    } else {
        false
    }
}

/// Whether some bound from position `i` on carries `name` and has a generic
/// argument structurally equal to `expected`.
pub open spec fn any_bound_with_type_from_spec(
    bounds: Seq<TraitBound>,
    name: Seq<char>,
    expected: TypeShape,
    i: int,
) -> bool
    decreases bounds.len() - i,
{
    if 0 <= i < bounds.len() {
        ||| (bound_named_spec(bounds[i], name) && any_arg_eq_from_spec(
            bound_args_spec(bounds[i]),
            expected,
            0,
        ))
        ||| any_bound_with_type_from_spec(bounds, name, expected, i + 1)
    } else {
        false
    }
}

/// Whether some argument from position `i` on is structurally equal to
/// `expected`.
pub open spec fn any_arg_eq_from_spec(args: Seq<TypeShape>, expected: TypeShape, i: int) -> bool
    decreases args.len() - i,
{
    if 0 <= i < args.len() {
        type_eq_spec(args[i], expected) || any_arg_eq_from_spec(args, expected, i + 1)
    } else {
        false
    }
}

/// Whether some bound from position `i` on carries `name` and has a generic
/// argument that is the bare identifier `arg_name`.
pub open spec fn any_bound_with_ident_from_spec(
    bounds: Seq<TraitBound>,
    name: Seq<char>,
    arg_name: Seq<char>,
    i: int,
) -> bool
    decreases bounds.len() - i,
{
    if 0 <= i < bounds.len() {
        ||| (bound_named_spec(bounds[i], name) && any_arg_ident_from_spec(
            bound_args_spec(bounds[i]),
            arg_name,
            0,
        ))
        ||| any_bound_with_ident_from_spec(bounds, name, arg_name, i + 1)
    } else {
        false
    }
}

/// Whether some argument from position `i` on is a path of the one bare
/// identifier `arg_name`.
pub open spec fn any_arg_ident_from_spec(args: Seq<TypeShape>, arg_name: Seq<char>, i: int) -> bool
    decreases args.len() - i,
{
    if 0 <= i < args.len() {
        ||| (args[i] matches TypeShape::Path { segments } && path_is_ident_spec(
            segments@,
            arg_name,
        ))
        ||| any_arg_ident_from_spec(args, arg_name, i + 1)
    } else {
        false
    }
}

/// What the pascal-case mangling yields from position `i` on: underscores
/// separate parts and are dropped; the first character of each part is
/// uppercased; other characters pass through. `boundary` says whether
/// position `i` starts a part.
pub open spec fn pascal_of(s: Seq<char>, i: int, boundary: bool) -> Seq<char>
    decreases s.len() - i,
{
    if 0 <= i < s.len() {
        if s[i] == '_' {
            pascal_of(s, i + 1, true)
        } else if boundary {
            upper_of(s[i]) + pascal_of(s, i + 1, false)
        } else {
            seq![s[i]] + pascal_of(s, i + 1, false)
        }
    } else {
        Seq::empty()
    }
}

/// What the capitalized-snake mangling yields from position `i` on: as the
/// pascal-case mangling, but with a single underscore put back between
/// parts. `emitted` says whether a part has been emitted already.
pub open spec fn snake_of(s: Seq<char>, i: int, boundary: bool, emitted: bool) -> Seq<char>
    decreases s.len() - i,
{
    if 0 <= i < s.len() {
        if s[i] == '_' {
            snake_of(s, i + 1, true, emitted)
        } else if boundary && emitted {
            seq!['_'] + upper_of(s[i]) + snake_of(s, i + 1, false, true)
        } else if boundary {
            upper_of(s[i]) + snake_of(s, i + 1, false, true)
        } else {
            seq![s[i]] + snake_of(s, i + 1, false, true)
        }
    } else {
        Seq::empty()
    }
}

impl CFFIAnalyzer {
    /// Whether the type, seen through references, is `impl AsRef<..>`.
    pub fn is_impl_as_ref_type(ty: &TypeShape) -> (r: bool)
        ensures
            r == sees_impl_bound_named_spec(*ty, "AsRef"@),
    {
        Self::sees_impl_bound_named(ty, "AsRef")
    }

    /// Whether the type, seen through references, is `impl AsMut<..>`.
    pub fn is_impl_as_mut_type(ty: &TypeShape) -> (r: bool)
        ensures
            r == sees_impl_bound_named_spec(*ty, "AsMut"@),
    {
        Self::sees_impl_bound_named(ty, "AsMut")
    }

    /// Whether the type, seen through references, is an `impl` type with a
    /// bound carrying `name` on its last path segment.
    fn sees_impl_bound_named(ty: &TypeShape, name: &str) -> (r: bool)
        ensures
            r == sees_impl_bound_named_spec(*ty, name@),
        decreases *ty,
    {
        match ty {
            TypeShape::Reference { elem, .. } => Self::sees_impl_bound_named(&**elem, name),
            TypeShape::ImplTrait { bounds } => Self::any_bound_named_from(bounds, name, 0),
            _ => false,
        }
    }

    /// The payload type of `AsRef<T>`, with the type seen through
    /// references: the `T`.
    pub fn extract_as_ref_generic<'a>(ty: &'a TypeShape) -> (r: Option<&'a TypeShape>)
        ensures
            r is Some <==> sees_bound_first_arg_spec(*ty, "AsRef"@) is Some,
            r matches Some(t) ==> sees_bound_first_arg_spec(*ty, "AsRef"@) == Some(*t),
    {
        Self::sees_bound_first_arg(ty, "AsRef")
    }

    /// The payload type of `AsMut<T>`, with the type seen through
    /// references: the `T`.
    pub fn extract_as_mut_generic<'a>(ty: &'a TypeShape) -> (r: Option<&'a TypeShape>)
        ensures
            r is Some <==> sees_bound_first_arg_spec(*ty, "AsMut"@) is Some,
            r matches Some(t) ==> sees_bound_first_arg_spec(*ty, "AsMut"@) == Some(*t),
    {
        Self::sees_bound_first_arg(ty, "AsMut")
    }

    /// The first generic argument of the first bound carrying `name`, with
    /// the type seen through references.
    fn sees_bound_first_arg<'a>(ty: &'a TypeShape, name: &str) -> (r: Option<&'a TypeShape>)
        ensures
            r is Some <==> sees_bound_first_arg_spec(*ty, name@) is Some,
            r matches Some(t) ==> sees_bound_first_arg_spec(*ty, name@) == Some(*t),
        decreases *ty,
    {
        match ty {
            TypeShape::Reference { elem, .. } => Self::sees_bound_first_arg(&**elem, name),
            TypeShape::ImplTrait { bounds } => Self::bound_first_arg_from(bounds, name, 0),
            _ => None,
        }
    }

    /// The first generic argument of the first bound carrying `name`, from
    /// position `i` on.
    fn bound_first_arg_from<'a>(bounds: &'a Vec<TraitBound>, name: &str, i: usize) -> (r: Option<
        &'a TypeShape,
    >)
        ensures
            r is Some <==> bound_first_arg_from_spec(bounds@, name@, i as int) is Some,
            r matches Some(t) ==> bound_first_arg_from_spec(bounds@, name@, i as int) == Some(*t),
        decreases bounds@.len() - i,
    {
        if i >= bounds.len() {
            return None;
        }
        let segs = &bounds[i].segments;
        if segs.len() > 0 && str_eq(segs[segs.len() - 1].ident.as_str(), name) && segs[segs.len()
            - 1].args.len() > 0 {
            return Some(&segs[segs.len() - 1].args[0]);
        }
        Self::bound_first_arg_from(bounds, name, i + 1)
    }

    /// Whether the type is a fixed-size array `[T; N]`.
    pub fn is_array(ty: &TypeShape) -> (r: bool)
        ensures
            r == (ty matches TypeShape::Array { .. }),
    {
        match ty {
            TypeShape::Array { .. } => true,
            _ => false,
        }
    }

    /// The element type and length expression of `[T; N]`.
    pub fn extract_array<'a>(ty: &'a TypeShape) -> (r: Option<(&'a TypeShape, &'a String)>)
        ensures
            r == (match ty {
                TypeShape::Array { elem, len } => Some((&**elem, len)),
                _ => None::<(&'a TypeShape, &'a String)>,
            }),
    {
        match ty {
            TypeShape::Array { elem, len } => Some((&**elem, len)),
            _ => None,
        }
    }

    /// Whether the type is `&mut [T; N]`.
    pub fn is_mut_array(ty: &TypeShape) -> (r: bool)
        ensures
            r == is_mut_array_spec(*ty),
    {
        match ty {
            TypeShape::Reference { mutable: true, elem } => match &**elem {
                TypeShape::Array { .. } => true,
                _ => false,
            },
            _ => false,
        }
    }

    /// The element type and length expression of `&mut [T; N]`.
    pub fn extract_mut_array<'a>(ty: &'a TypeShape) -> (r: Option<(&'a TypeShape, &'a String)>)
        ensures
            r is Some <==> is_mut_array_spec(*ty),
            r matches Some((e, l)) ==> (ty matches TypeShape::Reference { mutable: true, elem }
                && **elem matches TypeShape::Array { elem: ae, len: al } && *e == *ae && *l == al),
    {
        match ty {
            TypeShape::Reference { mutable: true, elem } => match &**elem {
                TypeShape::Array { elem: ae, len: al } => Some((&**ae, al)),
                _ => None,
            },
            _ => None,
        }
    }

    /// Whether the type is a borrowed slice `&[T]`.
    pub fn is_slice(ty: &TypeShape) -> (r: bool)
        ensures
            r == is_slice_shape_spec(*ty),
    {
        match ty {
            TypeShape::Reference { mutable: false, elem } => match &**elem {
                TypeShape::Slice { .. } => true,
                _ => false,
            },
            _ => false,
        }
    }

    /// The element type of `&[T]`.
    pub fn extract_slice<'a>(ty: &'a TypeShape) -> (r: Option<&'a TypeShape>)
        ensures
            r is Some <==> is_slice_shape_spec(*ty),
            r matches Some(e) ==> (ty matches TypeShape::Reference { mutable: false, elem }
                && **elem matches TypeShape::Slice { elem: se } && *e == *se),
    {
        match ty {
            TypeShape::Reference { mutable: false, elem } => match &**elem {
                TypeShape::Slice { elem: se } => Some(&**se),
                _ => None,
            },
            _ => None,
        }
    }

    /// Whether the type is a mutable slice `&mut [T]`.
    pub fn is_mut_slice(ty: &TypeShape) -> (r: bool)
        ensures
            r == is_mut_slice_shape_spec(*ty),
    {
        match ty {
            TypeShape::Reference { mutable: true, elem } => match &**elem {
                TypeShape::Slice { .. } => true,
                _ => false,
            },
            _ => false,
        }
    }

    /// The element type of `&mut [T]`.
    pub fn extract_mut_slice<'a>(ty: &'a TypeShape) -> (r: Option<&'a TypeShape>)
        ensures
            r is Some <==> is_mut_slice_shape_spec(*ty),
            r matches Some(e) ==> (ty matches TypeShape::Reference { mutable: true, elem }
                && **elem matches TypeShape::Slice { elem: se } && *e == *se),
    {
        match ty {
            TypeShape::Reference { mutable: true, elem } => match &**elem {
                TypeShape::Slice { elem: se } => Some(&**se),
                _ => None,
            },
            _ => None,
        }
    }

    /// Whether any annotation asks that the return value stay raw.
    pub fn is_not_result_attribute(attrs: &Vec<Annotation>) -> (r: bool)
        ensures
            r == crate::attrs::has_ann_from_spec(attrs@, "not_result"@, 0),
    {
        crate::attrs::CFFIAttributeAnalyzer::has_path_attr(attrs, "not_result")
    }

    /// Whether the type is an `impl` type with an `Into` bound whose target,
    /// seen through a reference, is a vector.
    pub fn is_impl_trait_into_vec(ty: &TypeShape) -> (r: bool)
        ensures
            r == (ty matches TypeShape::ImplTrait { bounds } && into_vec_inner_from_spec(
                bounds@,
                0,
            ) is Some),
    {
        match ty {
            TypeShape::ImplTrait { bounds } => {
                match Self::into_vec_inner_from(bounds, 0) {
                    Some(_) => true,
                    None => false,
                }
            },
            _ => false,
        }
    }

    /// Whether the type is a path whose last segment is named `Vec`.
    pub fn is_vec_type(ty: &TypeShape) -> (r: bool)
        ensures
            r == is_vec_shape_spec(*ty),
    {
        match ty {
            TypeShape::Path { segments } => segments.len() > 0 && str_eq(
                segments[segments.len() - 1].ident.as_str(),
                "Vec",
            ),
            _ => false,
        }
    }

    /// Whether the type is `&mut Vec<T>`.
    pub fn is_mut_vec_type(ty: &TypeShape) -> (r: bool)
        ensures
            r == (ty matches TypeShape::Reference { mutable: true, elem } && is_vec_shape_spec(
                **elem,
            )),
    {
        match ty {
            TypeShape::Reference { mutable: true, elem } => Self::is_vec_type(&**elem),
            _ => false,
        }
    }

    /// The element type of a vector-shaped path, with the type seen through
    /// references.
    pub fn extract_vec_inner_type<'a>(ty: &'a TypeShape) -> (r: Option<&'a TypeShape>)
        ensures
            r is Some <==> vec_inner_spec(*ty) is Some,
            r matches Some(t) ==> vec_inner_spec(*ty) == Some(*t),
        decreases *ty,
    {
        match ty {
            TypeShape::Path { segments } => {
                if segments.len() > 0 && str_eq(segments[segments.len() - 1].ident.as_str(), "Vec")
                    && segments[segments.len() - 1].args.len() > 0 {
                    Some(&segments[segments.len() - 1].args[0])
                } else {
                    None
                }
            },
            TypeShape::Reference { elem, .. } => Self::extract_vec_inner_type(&**elem),
            _ => None,
        }
    }

    /// The sequence element type named by the first `Into` bound of an
    /// `impl` type; see [`into_vec_inner_from_spec`].
    pub fn extract_vec_inner_type_from_impl_trait<'a>(ty: &'a TypeShape) -> (r: Option<
        &'a TypeShape,
    >)
        ensures
            r is Some <==> (ty matches TypeShape::ImplTrait { bounds }
                && into_vec_inner_from_spec(bounds@, 0) is Some),
            r matches Some(t) ==> (ty matches TypeShape::ImplTrait { bounds }
                && into_vec_inner_from_spec(bounds@, 0) == Some(*t)),
    {
        match ty {
            TypeShape::ImplTrait { bounds } => Self::into_vec_inner_from(bounds, 0),
            _ => None,
        }
    }

    /// The element type of the first `Into`-of-vector bound from position
    /// `i` on.
    fn into_vec_inner_from<'a>(bounds: &'a Vec<TraitBound>, i: usize) -> (r: Option<&'a TypeShape>)
        ensures
            r is Some <==> into_vec_inner_from_spec(bounds@, i as int) is Some,
            r matches Some(t) ==> into_vec_inner_from_spec(bounds@, i as int) == Some(*t),
        decreases bounds@.len() - i,
    {
        if i >= bounds.len() {
            return None;
        }
        let segs = &bounds[i].segments;
        if segs.len() == 0 {
            return None;
        }
        if str_eq(segs[segs.len() - 1].ident.as_str(), "Into") && segs[segs.len() - 1].args.len()
            > 0 {
            return Self::extract_vec_inner_type(&segs[segs.len() - 1].args[0]);
        }
        Self::into_vec_inner_from(bounds, i + 1)
    }

    /// Whether the sequence target of the first `Into` bound of an `impl`
    /// type is held by mutable reference.
    pub fn into_vec_target_is_mut(ty: &TypeShape) -> (r: bool)
        ensures
            r == (ty matches TypeShape::ImplTrait { bounds } && into_vec_mut_from_spec(bounds@, 0)),
    {
        match ty {
            TypeShape::ImplTrait { bounds } => Self::into_vec_mut_from(bounds, 0),
            _ => false,
        }
    }

    /// Whether the first `Into` bound's target from position `i` on is a
    /// mutable reference.
    fn into_vec_mut_from(bounds: &Vec<TraitBound>, i: usize) -> (r: bool)
        ensures
            r == into_vec_mut_from_spec(bounds@, i as int),
        decreases bounds@.len() - i,
    {
        if i >= bounds.len() {
            return false;
        }
        let segs = &bounds[i].segments;
        if segs.len() == 0 {
            return false;
        }
        if str_eq(segs[segs.len() - 1].ident.as_str(), "Into") && segs[segs.len() - 1].args.len()
            > 0 {
            return match &segs[segs.len() - 1].args[0] {
                TypeShape::Reference { mutable: true, .. } => true,
                _ => false,
            };
        }
        Self::into_vec_mut_from(bounds, i + 1)
    }

    /// Whether the type is `&Vec<T>`.
    pub fn is_ref_vec_type(ty: &TypeShape) -> (r: Option<()>)
        ensures
            r is Some <==> (ty matches TypeShape::Reference { mutable: false, elem }
                && is_vec_shape_spec(**elem)),
    {
        match ty {
            TypeShape::Reference { mutable: false, elem } => {
                if Self::is_vec_type(&**elem) {
                    Some(())
                } else {
                    None
                }
            },
            _ => None,
        }
    }

    /// Whether the type is `&mut Vec<T>`.
    pub fn is_mut_ref_vec_type(ty: &TypeShape) -> (r: Option<()>)
        ensures
            r is Some <==> (ty matches TypeShape::Reference { mutable: true, elem }
                && is_vec_shape_spec(**elem)),
    {
        match ty {
            TypeShape::Reference { mutable: true, elem } => {
                if Self::is_vec_type(&**elem) {
                    Some(())
                } else {
                    None
                }
            },
            _ => None,
        }
    }

    /// Whether the type is an `impl` type with a bound carrying
    /// `trait_name` whose generic arguments hold a type structurally equal
    /// to `expected_ty`.
    pub fn is_impl_trait_with_target_type_path(
        ty: &TypeShape,
        trait_name: &str,
        expected_ty: &TypeShape,
    ) -> (r: bool)
        ensures
            r == (ty matches TypeShape::ImplTrait { bounds } && any_bound_with_type_from_spec(
                bounds@,
                trait_name@,
                *expected_ty,
                0,
            )),
    {
        match ty {
            TypeShape::ImplTrait { bounds } => Self::any_bound_with_type_from(
                bounds,
                trait_name,
                expected_ty,
                0,
            ),
            _ => false,
        }
    }

    /// Whether some bound from position `i` on carries `name` with an
    /// argument structurally equal to `expected`.
    fn any_bound_with_type_from(
        bounds: &Vec<TraitBound>,
        name: &str,
        expected: &TypeShape,
        i: usize,
    ) -> (r: bool)
        ensures
            r == any_bound_with_type_from_spec(bounds@, name@, *expected, i as int),
        decreases bounds@.len() - i,
    {
        if i >= bounds.len() {
            return false;
        }
        let segs = &bounds[i].segments;
        if segs.len() > 0 && str_eq(segs[segs.len() - 1].ident.as_str(), name) {
            if Self::any_arg_eq_from(&segs[segs.len() - 1].args, expected, 0) {
                return true;
            }
        }
        Self::any_bound_with_type_from(bounds, name, expected, i + 1)
    }

    /// Whether some argument from position `i` on is structurally equal to
    /// `expected`.
    fn any_arg_eq_from(args: &Vec<TypeShape>, expected: &TypeShape, i: usize) -> (r: bool)
        ensures
            r == any_arg_eq_from_spec(args@, *expected, i as int),
        decreases args@.len() - i,
    {
        if i >= args.len() {
            return false;
        }
        if Self::type_eq(&args[i], expected) {
            return true;
        }
        Self::any_arg_eq_from(args, expected, i + 1)
    }

    /// Whether the type is an `impl` type with a bound carrying
    /// `trait_name` whose generic arguments hold the bare identifier
    /// `type_arg_name`.
    pub fn is_impl_trait_with_target_type(
        ty: &TypeShape,
        trait_name: &str,
        type_arg_name: &str,
    ) -> (r: bool)
        ensures
            r == (ty matches TypeShape::ImplTrait { bounds } && any_bound_with_ident_from_spec(
                bounds@,
                trait_name@,
                type_arg_name@,
                0,
            )),
    {
        match ty {
            TypeShape::ImplTrait { bounds } => Self::any_bound_with_ident_from(
                bounds,
                trait_name,
                type_arg_name,
                0,
            ),
            _ => false,
        }
    }

    /// Whether some bound from position `i` on carries `name` with an
    /// argument that is the bare identifier `arg_name`.
    fn any_bound_with_ident_from(
        bounds: &Vec<TraitBound>,
        name: &str,
        arg_name: &str,
        i: usize,
    ) -> (r: bool)
        ensures
            r == any_bound_with_ident_from_spec(bounds@, name@, arg_name@, i as int),
        decreases bounds@.len() - i,
    {
        if i >= bounds.len() {
            return false;
        }
        let segs = &bounds[i].segments;
        if segs.len() > 0 && str_eq(segs[segs.len() - 1].ident.as_str(), name) {
            if Self::any_arg_ident_from(&segs[segs.len() - 1].args, arg_name, 0) {
                return true;
            }
        }
        Self::any_bound_with_ident_from(bounds, name, arg_name, i + 1)
    }

    /// Whether some argument from position `i` on is the bare identifier
    /// `arg_name`.
    fn any_arg_ident_from(args: &Vec<TypeShape>, arg_name: &str, i: usize) -> (r: bool)
        ensures
            r == any_arg_ident_from_spec(args@, arg_name@, i as int),
        decreases args@.len() - i,
    {
        if i >= args.len() {
            return false;
        }
        let hit = match &args[i] {
            TypeShape::Path { segments } => Self::path_is_ident(segments, arg_name),
            _ => false,
        };
        if hit {
            return true;
        }
        Self::any_arg_ident_from(args, arg_name, i + 1)
    }

    /// The pascal-case mangling of an identifier; see [`pascal_of`].
    pub fn to_pascal_case(s: &str) -> (r: String)
        ensures
            r@ == pascal_of(s@, 0, true),
    {
        let cs = chars_of(s);
        Self::pascal_from(&cs, 0, true)
    }

    /// The pascal-case mangling from position `i` on.
    fn pascal_from(s: &Vec<char>, i: usize, boundary: bool) -> (r: String)
        ensures
            r@ == pascal_of(s@, i as int, boundary),
        decreases s@.len() - i,
    {
        if i >= s.len() {
            return String::new();
        }
        let c = s[i];
        if c == '_' {
            Self::pascal_from(s, i + 1, true)
        } else {
            let rest = Self::pascal_from(s, i + 1, false);
            if boundary {
                let mut r = char_upper(c);
                r.append(rest.as_str());
                r
            } else {
                let mut r = String::new();
                push_char(&mut r, c);
                r.append(rest.as_str());
                proof {
                    assert(r@ =~= seq![c] + pascal_of(s@, i + 1, false));
                }
                r
            }
        }
    }

    /// The capitalized-snake mangling of an identifier; see [`snake_of`].
    pub fn to_capitalized_snake(s: &str) -> (r: String)
        ensures
            r@ == snake_of(s@, 0, true, false),
    {
        let cs = chars_of(s);
        Self::snake_from(&cs, 0, true, false)
    }

    /// The capitalized-snake mangling from position `i` on.
    fn snake_from(s: &Vec<char>, i: usize, boundary: bool, emitted: bool) -> (r: String)
        ensures
            r@ == snake_of(s@, i as int, boundary, emitted),
        decreases s@.len() - i,
    {
        if i >= s.len() {
            return String::new();
        }
        let c = s[i];
        if c == '_' {
            Self::snake_from(s, i + 1, true, emitted)
        } else if boundary {
            let rest = Self::snake_from(s, i + 1, false, true);
            let upper = char_upper(c);
            if emitted {
                let mut r = String::new();
                push_char(&mut r, '_');
                r.append(upper.as_str());
                r.append(rest.as_str());
                proof {
                    assert(r@ =~= seq!['_'] + upper_of(c) + snake_of(s@, i + 1, false, true));
                }
                r
            } else {
                let mut r = upper;
                r.append(rest.as_str());
                r
            }
        } else {
            let rest = Self::snake_from(s, i + 1, false, true);
            let mut r = String::new();
            push_char(&mut r, c);
            r.append(rest.as_str());
            proof {
                assert(r@ =~= seq![c] + snake_of(s@, i + 1, false, true));
            }
            r
        }
    }
}

} // verus!

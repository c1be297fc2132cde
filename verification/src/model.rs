//! The data model: structured descriptions of declared surface types,
//! annotations, parameters and functions, and the resolved per-scope
//! configuration.
//!
//! A declared type is kept as a small structural tree: path types with
//! generic arguments, references, slices, fixed-size arrays and `impl`
//! trait bounds. All decisions of the rule engine are lexical pattern
//! matches over this tree; no knowledge of runtime values is involved.
use vstd::prelude::*;

verus! {

/// One segment of a type path: an identifier plus its generic type
/// arguments, e.g. `Vec<i32>` is the segment `Vec` with one argument.
pub struct PathSeg {
    pub ident: String,
    pub args: Vec<TypeShape>,
}

/// One trait bound of an `impl` type, e.g. `AsRef<str>`: the path of the
/// trait, with the trait's generic arguments on the last segment.
pub struct TraitBound {
    pub segments: Vec<PathSeg>,
}

/// Structural description of a declared surface type.
pub enum TypeShape {
    /// A path type such as `i32`, `String`, `Option<T>` or `std::os::raw::c_char`.
    Path { segments: Vec<PathSeg> },
    /// `&T` or `&mut T`.
    Reference { mutable: bool, elem: Box<TypeShape> },
    /// `[T]` (only ever seen behind a reference).
    Slice { elem: Box<TypeShape> },
    /// `[T; N]`; the length is kept as verbatim expression text.
    Array { elem: Box<TypeShape>, len: String },
    /// `impl Bound1 + Bound2 + ...`.
    ImplTrait { bounds: Vec<TraitBound> },
}

/// The payload of one annotation.
pub enum AnnValue {
    /// A bare flag, `#[as_result]`.
    Bare,
    /// A string payload, `#[library_name = "DxLib_x64"]`.
    Str(String),
    /// A bare identifier payload, `#[arg_convert = default]`.
    Ident(String),
}

/// One free-form annotation attached to a scope, a function or an argument.
pub struct Annotation {
    pub name: String,
    pub value: AnnValue,
}

/// One declared parameter: identifier, surface type, per-argument annotations.
pub struct DeclaredParameter {
    pub name: String,
    pub ty: TypeShape,
    pub attrs: Vec<Annotation>,
}

/// One declared foreign function: name, annotations, ordered parameters and
/// declared return type (`None` when the declaration has no return type,
/// which the plan builder rejects).
pub struct DeclaredFunction {
    pub name: String,
    pub attrs: Vec<Annotation>,
    pub params: Vec<DeclaredParameter>,
    pub ret: Option<TypeShape>,
}

/// The resolved scalar settings of one configuration scope, also used as the
/// per-function snapshot after function-level overrides are applied.
///
/// An empty prefix string means that no prefix is configured.
pub struct EffectiveConfig {
    pub library_name: String,
    pub link_kind: Option<String>,
    pub top_prefix: String,
    pub down_prefix: String,
    pub as_result: bool,
    pub error_condition: String,
    pub arg_convert: String,
}

impl TypeShape {
    /// Builds a path type of a single bare identifier, e.g. `i32`.
    pub fn simple(name: &str) -> (r: TypeShape)
        ensures
            r matches TypeShape::Path { segments } && segments@.len() == 1
                && segments@[0].ident@ == name@ && segments@[0].args@.len() == 0,
    {
        TypeShape::Path {
            segments: vec![PathSeg { ident: name.to_owned(), args: Vec::new() }],
        }
    }

    /// Builds a path type of a single identifier with one generic argument,
    /// e.g. `Option<i32>`.
    pub fn generic1(name: &str, arg: TypeShape) -> (r: TypeShape)
        ensures
            r matches TypeShape::Path { segments } && segments@.len() == 1
                && segments@[0].ident@ == name@ && segments@[0].args@.len() == 1
                && segments@[0].args@[0] == arg,
    {
        TypeShape::Path {
            segments: vec![PathSeg { ident: name.to_owned(), args: vec![arg] }],
        }
    }
}


impl TypeShape {
    /// Builds `&T` or `&mut T`.
    pub fn reference(mutable: bool, elem: TypeShape) -> (r: TypeShape)
        ensures
            r matches TypeShape::Reference { mutable: m, elem: e } && m == mutable && *e == elem,
    {
        TypeShape::Reference { mutable, elem: Box::new(elem) }
    }
}

impl Annotation {
    /// Builds a bare flag annotation.
    pub fn flag(name: &str) -> (r: Annotation)
        ensures
            r.name@ == name@,
            r.value is Bare,
    {
        Annotation { name: name.to_owned(), value: AnnValue::Bare }
    }

    /// Builds a string-valued annotation.
    pub fn with_str(name: &str, value: &str) -> (r: Annotation)
        ensures
            r.name@ == name@,
            r.value matches AnnValue::Str(v) && v@ == value@,
    {
        Annotation { name: name.to_owned(), value: AnnValue::Str(value.to_owned()) }
    }

    /// Builds a bare-identifier-valued annotation.
    pub fn with_ident(name: &str, value: &str) -> (r: Annotation)
        ensures
            r.name@ == name@,
            r.value matches AnnValue::Ident(v) && v@ == value@,
    {
        Annotation { name: name.to_owned(), value: AnnValue::Ident(value.to_owned()) }
    }
}

impl DeclaredParameter {
    /// Builds a parameter without annotations.
    pub fn plain(name: &str, ty: TypeShape) -> (r: DeclaredParameter)
        ensures
            r.name@ == name@,
            r.ty == ty,
            r.attrs@.len() == 0,
    {
        DeclaredParameter { name: name.to_owned(), ty, attrs: Vec::new() }
    }
}

} // verus!

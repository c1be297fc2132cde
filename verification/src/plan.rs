//! The marshalling rule engine and the function plan builder.
//!
//! For one declared parameter, exactly one conversion rule from a fixed
//! priority order applies; the rule decides the wrapper-facing parameter
//! type, the raw C-compatible parameter type, the conversion statements
//! bridging the two, and the ownership of any temporary the conversion
//! allocates. A whole declared function folds into a [`FunctionPlan`],
//! which fully determines the emitted text.
use vstd::prelude::*;

use crate::attrs::{
    arg_convert_of_spec, decoded_default_spec, has_ann_from_spec, option_default_of_spec,
    str_value_from_spec, CFFIAttributeAnalyzer,
};
use crate::cffi_error::GenError;
use crate::classifier::{
    is_option_shape_spec, is_mut_array_spec, is_slice_shape_spec, is_mut_slice_shape_spec,
    is_vec_shape_spec, into_vec_inner_from_spec, into_vec_mut_from_spec, path_is_ident_spec,
    sees_bound_first_arg_spec, sees_impl_bound_named_spec, vec_inner_spec, any_bound_ident_from_spec,
    CFFIAnalyzer,
};
use crate::lexcheck::{lex_check, lexes_ok};
use crate::model::{Annotation, DeclaredFunction, DeclaredParameter, EffectiveConfig, TypeShape};
use crate::render::{render_type, render_type_spec};
use crate::text::{contains_spec, str_contains};

verus! {

/// Which conversion rule of the priority table applies to a parameter.
#[derive(Clone, Copy, PartialEq, Eq, Structural, Debug)]
pub enum RuleKind {
    /// An optional value: unwrapped with a default expression on absence.
    OptionDefault,
    /// A borrowed-conversion bound targeting a text type: an owned
    /// null-terminated copy is taken and a read-only pointer derived.
    AsRefText,
    /// A borrowed-conversion bound targeting anything else: a read-only
    /// pointer straight into the caller's value.
    AsRefDirect,
    /// A mutable-conversion bound targeting a slice: a mutable pointer
    /// straight into the caller-owned buffer.
    AsMutSeq,
    /// A stringify- or display-like bound: as the text bound, applied to
    /// the stringified representation.
    Stringify,
    /// An owned-sequence conversion bound: a pointer to the sequence's
    /// backing storage, mutable only when the target is held mutably.
    IntoVec,
    /// A fixed-size array by value.
    ArrayValue,
    /// A fixed-size array by mutable reference.
    ArrayMut,
    /// A borrowed slice.
    SliceRef,
    /// A mutably borrowed slice.
    SliceMut,
    /// An owned vector.
    VecValue,
    /// A mutably borrowed vector.
    VecMut,
    /// A borrowed or owned text value, read-only at the call.
    TextConst,
    /// A mutably borrowed text value: ownership of the buffer is handed to
    /// a raw mutable pointer, and nothing reclaims it afterwards; the
    /// caller must resynchronize by hand, a documented gap of this
    /// conversion.
    TextMut,
    /// Anything else passes through unchanged.
    Passthrough,
}

/// Who owns the memory behind the raw pointer for the duration of the call.
#[derive(Clone, Copy, PartialEq, Eq, Structural, Debug)]
pub enum Ownership {
    /// No temporary: the value itself crosses the boundary.
    NoTemporary,
    /// A scope-local temporary owns a copy; the pointer is a non-owning
    /// view into it and the holder must outlive the call.
    OwnedTemporary,
    /// The pointer aliases caller-owned memory for the call's duration.
    BorrowedTemporary,
}

/// The raw C-facing parameter: a pointer, or the value itself.
pub enum RawParam {
    /// `*const T`; the payload is the rendered element type.
    ConstPtr(String),
    /// `*mut T`; the payload is the rendered element type.
    MutPtr(String),
    /// The value unchanged; the payload is the rendered type.
    Value(String),
}

/// Where the text for a null-terminated temporary comes from.
#[derive(Clone, Copy, PartialEq, Eq, Structural, Debug)]
pub enum TextSource {
    /// `arg.as_ref()`.
    AsRefArg,
    /// `arg.to_string()`.
    ToStringArg,
}

/// One conversion statement of a parameter plan, in emission order.
pub enum ConvStep {
    /// Unwraps an optional value, substituting the default expression.
    UnwrapOption { default_expr: String },
    /// Binds the owned null-terminated holder for a text conversion.
    BindCStringHolder { via: TextSource },
    /// Derives the read-only pointer from the bound holder.
    PtrFromCStringHolder,
    /// Binds the general raw-owner holder for a text value.
    BindRawOwnerHolder { mutable: bool, take_ref: bool },
    /// Derives the pointer, and the kept owner, from the raw-owner holder.
    PtrFromRawOwnerHolder { mutable: bool },
    /// Takes a pointer directly, through the conversion bound when
    /// `via_conv` holds.
    PtrDirect { mutable: bool, via_conv: bool },
}

/// The marshalling plan of one declared parameter.
pub struct ParameterPlan {
    pub rule: RuleKind,
    pub name: String,
    /// The wrapper-facing parameter type, rendered.
    pub wrapper_ty: String,
    pub raw: RawParam,
    pub conv: Vec<ConvStep>,
    pub ownership: Ownership,
}

/// Which failure variant the emitted wrapper reports.
#[derive(Clone, Copy, PartialEq, Eq, Structural, Debug)]
pub enum ErrorVariant {
    /// The designated initializer symbol.
    Initialize,
    /// The designated finalizer symbol.
    Finalize,
    /// Every other function: the generic variant carrying the wrapper's
    /// name.
    Other,
}

/// The resolved plan of one declared function.
pub struct FunctionPlan {
    pub extern_name: String,
    pub wrapper_name: String,
    pub params: Vec<ParameterPlan>,
    /// The declared return type, rendered.
    pub return_ty: String,
    pub as_result: bool,
    pub error_condition: String,
    pub error_variant: ErrorVariant,
    pub library_name: String,
    pub link_kind: Option<String>,
}

/// Whether a path type's last segment names a text type.
pub open spec fn text_path_spec(t: TypeShape) -> bool {
    &&& t matches TypeShape::Path { segments }
    &&& segments@.len() > 0
    &&& (segments@[segments@.len() - 1].ident@ == "str"@ || segments@[segments@.len()
        - 1].ident@ == "String"@)
}

/// The conversion-bound payload behind one immutable reference: for
/// `&impl AsRef<T>`, the `T`.
pub open spec fn as_ref_behind_ref_arg_spec(ty: TypeShape) -> Option<TypeShape> {
    match ty {
        TypeShape::Reference { mutable: false, elem } => sees_bound_first_arg_spec(
            *elem,
            "AsRef"@,
        ),
        _ => None,
    }
}

/// The mutable-conversion-bound payload behind one immutable reference.
pub open spec fn as_mut_behind_ref_arg_spec(ty: TypeShape) -> Option<TypeShape> {
    match ty {
        TypeShape::Reference { mutable: false, elem } => sees_bound_first_arg_spec(
            *elem,
            "AsMut"@,
        ),
        _ => None,
    }
}

/// Whether the type is `&str`.
pub open spec fn is_ref_str_spec(ty: TypeShape) -> bool {
    ty matches TypeShape::Reference { mutable: false, elem } && (*elem) matches TypeShape::Path {
        segments,
    } && path_is_ident_spec(segments@, "str"@)
}

/// Whether the type is a bare `String`.
pub open spec fn is_string_value_spec(ty: TypeShape) -> bool {
    ty matches TypeShape::Path { segments } && path_is_ident_spec(segments@, "String"@)
}

/// Whether the type is `&String`.
pub open spec fn is_ref_string_spec(ty: TypeShape) -> bool {
    ty matches TypeShape::Reference { mutable: false, elem } && (*elem) matches TypeShape::Path {
        segments,
    } && path_is_ident_spec(segments@, "String"@)
}

/// Whether the type is `&mut String`.
pub open spec fn is_mut_string_spec(ty: TypeShape) -> bool {
    ty matches TypeShape::Reference { mutable: true, elem } && (*elem) matches TypeShape::Path {
        segments,
    } && path_is_ident_spec(segments@, "String"@)
}

/// The rules tried after the conversion bounds, in priority order.
pub open spec fn classify_tail_spec(ty: TypeShape) -> RuleKind {
    if ty matches TypeShape::ImplTrait { bounds } && any_bound_ident_from_spec(
        bounds@,
        "ToString"@,
        0,
    ) {
        RuleKind::Stringify
    } else if ty matches TypeShape::ImplTrait { bounds } && any_bound_ident_from_spec(
        bounds@,
        "Display"@,
        0,
    ) {
        RuleKind::Stringify
    } else if ty matches TypeShape::ImplTrait { bounds } && into_vec_inner_from_spec(
        bounds@,
        0,
    ) is Some {
        RuleKind::IntoVec
    } else if ty matches TypeShape::Array { .. } {
        RuleKind::ArrayValue
    } else if is_mut_array_spec(ty) {
        RuleKind::ArrayMut
    } else if is_slice_shape_spec(ty) {
        RuleKind::SliceRef
    } else if is_mut_slice_shape_spec(ty) {
        RuleKind::SliceMut
    } else if is_vec_shape_spec(ty) {
        RuleKind::VecValue
    } else if ty matches TypeShape::Reference { mutable: true, elem } && is_vec_shape_spec(*elem) {
        RuleKind::VecMut
    } else if is_ref_str_spec(ty) {
        RuleKind::TextConst
    } else if is_string_value_spec(ty) {
        RuleKind::TextConst
    } else if is_ref_string_spec(ty) {
        RuleKind::TextConst
    } else if is_mut_string_spec(ty) {
        RuleKind::TextMut
    } else {
        RuleKind::Passthrough
    }
}

/// The one rule that applies to a declared parameter type: the priority
/// cascade. With conversion disabled everything passes through.
pub open spec fn classify_spec(ty: TypeShape, enabled: bool) -> RuleKind {
    if !enabled {
        RuleKind::Passthrough
    } else if is_option_shape_spec(ty) {
        RuleKind::OptionDefault
    } else if sees_impl_bound_named_spec(ty, "AsRef"@) {
        if as_ref_behind_ref_arg_spec(ty) matches Some(inner) && text_path_spec(inner) {
            RuleKind::AsRefText
        } else {
            match sees_bound_first_arg_spec(ty, "AsRef"@) {
                Some(inner) => if text_path_spec(inner) {
                    RuleKind::AsRefText
                } else {
                    RuleKind::AsRefDirect
                },
                None => classify_tail_spec(ty),
            }
        }
    } else if sees_impl_bound_named_spec(ty, "AsMut"@) {
        if as_mut_behind_ref_arg_spec(ty) matches Some(inner) && inner matches TypeShape::Slice {
            ..
        } {
            RuleKind::AsMutSeq
        } else if sees_bound_first_arg_spec(ty, "AsMut"@) matches Some(inner)
            && inner matches TypeShape::Slice { .. } {
            RuleKind::AsMutSeq
        } else {
            classify_tail_spec(ty)
        }
    } else {
        classify_tail_spec(ty)
    }
}

/// The ownership kind that each rule commits to.
pub open spec fn ownership_of_spec(rule: RuleKind) -> Ownership {
    match rule {
        RuleKind::OptionDefault => Ownership::NoTemporary,
        RuleKind::AsRefText => Ownership::OwnedTemporary,
        RuleKind::AsRefDirect => Ownership::BorrowedTemporary,
        RuleKind::AsMutSeq => Ownership::BorrowedTemporary,
        RuleKind::Stringify => Ownership::OwnedTemporary,
        RuleKind::IntoVec => Ownership::BorrowedTemporary,
        RuleKind::ArrayValue => Ownership::BorrowedTemporary,
        RuleKind::ArrayMut => Ownership::BorrowedTemporary,
        RuleKind::SliceRef => Ownership::BorrowedTemporary,
        RuleKind::SliceMut => Ownership::BorrowedTemporary,
        RuleKind::VecValue => Ownership::BorrowedTemporary,
        RuleKind::VecMut => Ownership::BorrowedTemporary,
        RuleKind::TextConst => Ownership::OwnedTemporary,
        RuleKind::TextMut => Ownership::OwnedTemporary,
        RuleKind::Passthrough => Ownership::NoTemporary,
    }
}

/// The payload type of an optional parameter.
pub open spec fn option_inner_spec(ty: TypeShape) -> TypeShape
    recommends
        is_option_shape_spec(ty),
{
    ty->Path_segments@[0].args@[0]
}

/// The conversion-bound payload the applying rule extracted, for the rules
/// that have one.
pub open spec fn bound_payload_spec(ty: TypeShape) -> Option<TypeShape> {
    if sees_impl_bound_named_spec(ty, "AsRef"@) {
        if as_ref_behind_ref_arg_spec(ty) matches Some(inner) && text_path_spec(inner) {
            as_ref_behind_ref_arg_spec(ty)
        } else {
            sees_bound_first_arg_spec(ty, "AsRef"@)
        }
    } else if sees_impl_bound_named_spec(ty, "AsMut"@) {
        if as_mut_behind_ref_arg_spec(ty) matches Some(inner) && inner matches TypeShape::Slice {
            ..
        } {
            as_mut_behind_ref_arg_spec(ty)
        } else {
            sees_bound_first_arg_spec(ty, "AsMut"@)
        }
    } else {
        None
    }
}

/// The wrapper-facing parameter type text that the applying rule emits.
pub open spec fn wrapper_ty_text_spec(ty: TypeShape, enabled: bool) -> Seq<char> {
    match classify_spec(ty, enabled) {
        RuleKind::OptionDefault => "Option<"@ + render_type_spec(option_inner_spec(ty)) + ">"@,
        RuleKind::AsRefText => {
            if as_ref_behind_ref_arg_spec(ty) matches Some(inner) && text_path_spec(inner) {
                "&impl AsRef<"@ + render_type_spec(as_ref_behind_ref_arg_spec(ty)->Some_0) + ">"@
            } else {
                "impl AsRef<"@ + render_type_spec(bound_payload_spec(ty)->Some_0) + ">"@
            }
        },
        RuleKind::AsRefDirect => "impl AsRef<"@ + render_type_spec(bound_payload_spec(ty)->Some_0)
            + ">"@,
        RuleKind::AsMutSeq => {
            if as_mut_behind_ref_arg_spec(ty) matches Some(inner) && inner matches TypeShape::Slice {
                ..
            } {
                "&mut impl AsMut<"@ + render_type_spec(as_mut_behind_ref_arg_spec(ty)->Some_0) + ">"@
            } else {
                "impl AsMut<"@ + render_type_spec(bound_payload_spec(ty)->Some_0) + ">"@
            }
        },
        RuleKind::Stringify => {
            if ty matches TypeShape::ImplTrait { bounds } && any_bound_ident_from_spec(
                bounds@,
                "ToString"@,
                0,
            ) {
                "impl ToString"@
            } else {
                "impl Display"@
            }
        },
        _ => render_type_spec(ty),
    }
}

/// The rendered element type behind the raw pointer of a vector rule; a
/// vector path without arguments has none.
pub open spec fn vec_elem_text_spec(ty: TypeShape) -> Seq<char> {
    match vec_inner_spec(ty) {
        Some(t) => render_type_spec(t),
        None => Seq::empty(),
    }
}

/// Whether the raw C-facing parameter is the one the applying rule emits.
pub open spec fn raw_matches_spec(ty: TypeShape, enabled: bool, raw: RawParam) -> bool {
    match classify_spec(ty, enabled) {
        RuleKind::OptionDefault => raw matches RawParam::Value(t) && t@ == render_type_spec(
            option_inner_spec(ty),
        ),
        RuleKind::AsRefText => raw matches RawParam::ConstPtr(t) && t@
            == "::std::os::raw::c_char"@,
        RuleKind::AsRefDirect => raw matches RawParam::ConstPtr(t) && t@ == render_type_spec(
            bound_payload_spec(ty)->Some_0,
        ),
        RuleKind::AsMutSeq => raw matches RawParam::MutPtr(t) && t@ == render_type_spec(
            *bound_payload_spec(ty)->Some_0->Slice_elem,
        ),
        RuleKind::Stringify => raw matches RawParam::ConstPtr(t) && t@ == "c_char"@,
        RuleKind::IntoVec => {
            if ty matches TypeShape::ImplTrait { bounds } && into_vec_mut_from_spec(bounds@, 0) {
                raw matches RawParam::MutPtr(t) && ty matches TypeShape::ImplTrait { bounds }
                    && t@ == render_type_spec(into_vec_inner_from_spec(bounds@, 0)->Some_0)
            } else {
                raw matches RawParam::ConstPtr(t) && ty matches TypeShape::ImplTrait { bounds }
                    && t@ == render_type_spec(into_vec_inner_from_spec(bounds@, 0)->Some_0)
            }
        },
        RuleKind::ArrayValue => raw matches RawParam::ConstPtr(t) && t@ == render_type_spec(
            *ty->Array_elem,
        ),
        RuleKind::ArrayMut => raw matches RawParam::MutPtr(t) && t@ == render_type_spec(
            *ty->Reference_elem->Array_elem,
        ),
        RuleKind::SliceRef => raw matches RawParam::ConstPtr(t) && t@ == render_type_spec(
            *ty->Reference_elem->Slice_elem,
        ),
        RuleKind::SliceMut => raw matches RawParam::MutPtr(t) && t@ == render_type_spec(
            *ty->Reference_elem->Slice_elem,
        ),
        RuleKind::VecValue => raw matches RawParam::ConstPtr(t) && t@ == vec_elem_text_spec(ty),
        RuleKind::VecMut => raw matches RawParam::MutPtr(t) && t@ == vec_elem_text_spec(ty),
        RuleKind::TextConst => raw matches RawParam::ConstPtr(t) && t@ == "c_char"@,
        RuleKind::TextMut => raw matches RawParam::MutPtr(t) && t@ == "c_char"@,
        RuleKind::Passthrough => raw matches RawParam::Value(t) && t@ == render_type_spec(ty),
    }
}

/// The default expression an optional parameter unwraps to: the decoded
/// annotation payload, or the zero-value constant when none is given.
pub open spec fn option_default_text_spec(attrs: Seq<Annotation>) -> Seq<char> {
    match option_default_of_spec(attrs) {
        Some(p) => decoded_default_spec(p),
        None => "Default::default()"@,
    }
}

/// Whether a text value needs an explicit borrow taken before the general
/// conversion: a string slice or an owned string does, a reference to an
/// owned string is passed as it is.
pub open spec fn text_take_ref_spec(ty: TypeShape) -> bool {
    is_ref_str_spec(ty) || is_string_value_spec(ty)
}

/// Whether the conversion statements are the ones the applying rule emits,
/// in their emission order.
pub open spec fn conv_matches_spec(p: DeclaredParameter, enabled: bool, conv: Seq<ConvStep>) -> bool {
    match classify_spec(p.ty, enabled) {
        RuleKind::OptionDefault => {
            &&& conv.len() == 1
            &&& conv[0] matches ConvStep::UnwrapOption { default_expr }
            &&& default_expr@ == option_default_text_spec(p.attrs@)
        },
        RuleKind::AsRefText => conv == seq![
            ConvStep::BindCStringHolder { via: TextSource::AsRefArg },
            ConvStep::PtrFromCStringHolder,
        ],
        RuleKind::AsRefDirect => conv == seq![
            ConvStep::PtrDirect { mutable: false, via_conv: true },
        ],
        RuleKind::AsMutSeq => conv == seq![ConvStep::PtrDirect { mutable: true, via_conv: true }],
        RuleKind::Stringify => conv == seq![
            ConvStep::BindCStringHolder { via: TextSource::ToStringArg },
            ConvStep::PtrFromCStringHolder,
        ],
        RuleKind::IntoVec => {
            if p.ty matches TypeShape::ImplTrait { bounds } && into_vec_mut_from_spec(bounds@, 0) {
                conv == seq![ConvStep::PtrDirect { mutable: true, via_conv: false }]
            } else {
                conv == seq![ConvStep::PtrDirect { mutable: false, via_conv: false }]
            }
        },
        RuleKind::ArrayValue => conv == seq![
            ConvStep::PtrDirect { mutable: false, via_conv: false },
        ],
        RuleKind::ArrayMut => conv == seq![ConvStep::PtrDirect { mutable: true, via_conv: false }],
        RuleKind::SliceRef => conv == seq![ConvStep::PtrDirect { mutable: false, via_conv: false }],
        RuleKind::SliceMut => conv == seq![ConvStep::PtrDirect { mutable: true, via_conv: false }],
        RuleKind::VecValue => conv == seq![ConvStep::PtrDirect { mutable: false, via_conv: false }],
        RuleKind::VecMut => conv == seq![ConvStep::PtrDirect { mutable: true, via_conv: false }],
        RuleKind::TextConst => {
            &&& conv.len() == 2
            &&& conv[0] matches ConvStep::BindRawOwnerHolder { mutable: false, take_ref }
            &&& take_ref == text_take_ref_spec(p.ty)
            &&& conv[1] == ConvStep::PtrFromRawOwnerHolder { mutable: false }
        },
        RuleKind::TextMut => conv == seq![
            ConvStep::BindRawOwnerHolder { mutable: true, take_ref: false },
            ConvStep::PtrFromRawOwnerHolder { mutable: true },
        ],
        RuleKind::Passthrough => conv.len() == 0,
    }
}

/// Whether planning this parameter fails: only an optional parameter with
/// an annotation payload that neither belongs to the vocabulary nor lexes
/// can fail.
pub open spec fn param_fails_spec(p: DeclaredParameter, enabled: bool) -> bool {
    &&& classify_spec(p.ty, enabled) is OptionDefault
    &&& option_default_of_spec(p.attrs@) matches Some(pay)
    &&& pay != "null"@
    &&& pay != "null_mut"@
    &&& pay != "default"@
    &&& !lexes_ok(pay)
}

/// The full contract of one parameter plan: every field is pinned by the
/// declared parameter and the conversion mode.
pub open spec fn param_plan_matches(p: DeclaredParameter, enabled: bool, plan: ParameterPlan) -> bool {
    &&& plan.name@ == p.name@
    &&& plan.rule == classify_spec(p.ty, enabled)
    &&& plan.wrapper_ty@ == wrapper_ty_text_spec(p.ty, enabled)
    &&& raw_matches_spec(p.ty, enabled, plan.raw)
    &&& conv_matches_spec(p, enabled, plan.conv@)
    &&& plan.ownership == ownership_of_spec(classify_spec(p.ty, enabled))
}

/// Whether a path type's last segment names a text type.
fn is_text_path(t: &TypeShape) -> (r: bool)
    ensures
        r == text_path_spec(*t),
{
    match t {
        TypeShape::Path { segments } => {
            if segments.len() == 0 {
                return false;
            }
            let last = &segments[segments.len() - 1];
            crate::text::str_eq(last.ident.as_str(), "str") || crate::text::str_eq(
                last.ident.as_str(),
                "String",
            )
        },
        _ => false,
    }
}

/// Builds the plan of one conversion-bound parameter whose payload is a
/// text type.
fn make_as_ref_text_plan(p: &DeclaredParameter, inner: &TypeShape, behind_ref: bool) -> (plan:
    ParameterPlan)
    ensures
        plan.name@ == p.name@,
        plan.rule == RuleKind::AsRefText,
        behind_ref ==> plan.wrapper_ty@ == "&impl AsRef<"@ + render_type_spec(*inner) + ">"@,
        !behind_ref ==> plan.wrapper_ty@ == "impl AsRef<"@ + render_type_spec(*inner) + ">"@,
        plan.raw matches RawParam::ConstPtr(t) && t@ == "::std::os::raw::c_char"@,
        plan.conv@ == seq![
            ConvStep::BindCStringHolder { via: TextSource::AsRefArg },
            ConvStep::PtrFromCStringHolder,
        ],
        plan.ownership == Ownership::OwnedTemporary,
{
    let mut wrapper = if behind_ref {
        String::from_str("&impl AsRef<")
    } else {
        String::from_str("impl AsRef<")
    };
    let it = render_type(inner);
    wrapper.append(it.as_str());
    wrapper.append(">");
    let mut conv: Vec<ConvStep> = Vec::new();
    conv.push(ConvStep::BindCStringHolder { via: TextSource::AsRefArg });
    conv.push(ConvStep::PtrFromCStringHolder);
    proof {
        assert(conv@ =~= seq![
            ConvStep::BindCStringHolder { via: TextSource::AsRefArg },
            ConvStep::PtrFromCStringHolder,
        ]);
    }
    ParameterPlan {
        rule: RuleKind::AsRefText,
        name: p.name.clone(),
        wrapper_ty: wrapper,
        raw: RawParam::ConstPtr("::std::os::raw::c_char".to_owned()),
        conv,
        ownership: Ownership::OwnedTemporary,
    }
}

/// Builds a plan whose conversion takes a pointer directly.
fn make_direct_plan(
    p: &DeclaredParameter,
    rule: RuleKind,
    wrapper: String,
    raw: RawParam,
    mutable: bool,
    via_conv: bool,
    ownership: Ownership,
) -> (plan: ParameterPlan)
    ensures
        plan.name@ == p.name@,
        plan.rule == rule,
        plan.wrapper_ty == wrapper,
        plan.raw == raw,
        plan.conv@ == seq![ConvStep::PtrDirect { mutable, via_conv }],
        plan.ownership == ownership,
{
    let mut conv: Vec<ConvStep> = Vec::new();
    conv.push(ConvStep::PtrDirect { mutable, via_conv });
    proof {
        assert(conv@ =~= seq![ConvStep::PtrDirect { mutable, via_conv }]);
    }
    ParameterPlan { rule, name: p.name.clone(), wrapper_ty: wrapper, raw, conv, ownership }
}

/// Builds the plan of a text-valued parameter converted through the
/// general raw-owner holder.
fn make_text_plan(p: &DeclaredParameter, mutable: bool, take_ref: bool, wrapper: String) -> (plan:
    ParameterPlan)
    ensures
        plan.name@ == p.name@,
        plan.rule == (if mutable {
            RuleKind::TextMut
        } else {
            RuleKind::TextConst
        }),
        plan.wrapper_ty == wrapper,
        mutable ==> (plan.raw matches RawParam::MutPtr(t) && t@ == "c_char"@),
        !mutable ==> (plan.raw matches RawParam::ConstPtr(t) && t@ == "c_char"@),
        plan.conv@ == seq![
            ConvStep::BindRawOwnerHolder { mutable, take_ref },
            ConvStep::PtrFromRawOwnerHolder { mutable },
        ],
        plan.ownership == Ownership::OwnedTemporary,
{
    let mut conv: Vec<ConvStep> = Vec::new();
    conv.push(ConvStep::BindRawOwnerHolder { mutable, take_ref });
    conv.push(ConvStep::PtrFromRawOwnerHolder { mutable });
    proof {
        assert(conv@ =~= seq![
            ConvStep::BindRawOwnerHolder { mutable, take_ref },
            ConvStep::PtrFromRawOwnerHolder { mutable },
        ]);
    }
    ParameterPlan {
        rule: if mutable {
            RuleKind::TextMut
        } else {
            RuleKind::TextConst
        },
        name: p.name.clone(),
        wrapper_ty: wrapper,
        raw: if mutable {
            RawParam::MutPtr("c_char".to_owned())
        } else {
            RawParam::ConstPtr("c_char".to_owned())
        },
        conv,
        ownership: Ownership::OwnedTemporary,
    }
}

/// Applies the one matching conversion rule to a declared parameter; see
/// [`param_plan_matches`]. Fails exactly when an optional parameter's
/// default-value payload neither belongs to the vocabulary nor lexes.
pub fn plan_parameter(p: &DeclaredParameter, enabled: bool) -> (r: Result<ParameterPlan, GenError>)
    ensures
        !param_fails_spec(*p, enabled) ==> (r matches Ok(plan) && param_plan_matches(
            *p,
            enabled,
            plan,
        )),
        param_fails_spec(*p, enabled) ==> (r matches Err(e) && e matches GenError::InvalidExpression(
            t,
        ) && option_default_of_spec(p.attrs@) matches Some(pay) && t@ == pay),
{
    if !enabled {
        let ty_text = render_type(&p.ty);
        return Ok(
            ParameterPlan {
                rule: RuleKind::Passthrough,
                name: p.name.clone(),
                wrapper_ty: ty_text.clone(),
                raw: RawParam::Value(ty_text),
                conv: Vec::new(),
                ownership: Ownership::NoTemporary,
            },
        );
    }
    if let Some(inner) = CFFIAnalyzer::is_option(&p.ty) {
        let default_expr = match CFFIAttributeAnalyzer::extract_option_default_expr_attr(&p.attrs) {
            Ok(Some(s)) => s,
            Ok(None) => "Default::default()".to_owned(),
            Err(e) => {
                return Err(e);
            },
        };
        let it = render_type(inner);
        let mut wrapper = String::from_str("Option<");
        wrapper.append(it.as_str());
        wrapper.append(">");
        let mut conv: Vec<ConvStep> = Vec::new();
        conv.push(ConvStep::UnwrapOption { default_expr });
        return Ok(
            ParameterPlan {
                rule: RuleKind::OptionDefault,
                name: p.name.clone(),
                wrapper_ty: wrapper,
                raw: RawParam::Value(it),
                conv,
                ownership: Ownership::NoTemporary,
            },
        );
    }
    if CFFIAnalyzer::is_impl_as_ref_type(&p.ty) {
        let behind: Option<&TypeShape> = match CFFIAnalyzer::extract_ref(&p.ty) {
            Some(rt) => CFFIAnalyzer::extract_as_ref_generic(rt),
            None => None,
        };
        if let Some(inner) = behind {
            if is_text_path(inner) {
                return Ok(make_as_ref_text_plan(p, inner, true));
            }
        }
        if let Some(inner) = CFFIAnalyzer::extract_as_ref_generic(&p.ty) {
            if is_text_path(inner) {
                return Ok(make_as_ref_text_plan(p, inner, false));
            }
            let it = render_type(inner);
            let mut wrapper = String::from_str("impl AsRef<");
            wrapper.append(it.as_str());
            wrapper.append(">");
            return Ok(
                make_direct_plan(
                    p,
                    RuleKind::AsRefDirect,
                    wrapper,
                    RawParam::ConstPtr(it),
                    false,
                    true,
                    Ownership::BorrowedTemporary,
                ),
            );
        }
        return Ok(plan_tail(p));
    }
    if CFFIAnalyzer::is_impl_as_mut_type(&p.ty) {
        let behind: Option<&TypeShape> = match CFFIAnalyzer::extract_ref(&p.ty) {
            Some(rt) => CFFIAnalyzer::extract_as_mut_generic(rt),
            None => None,
        };
        if let Some(inner) = behind {
            if let TypeShape::Slice { elem } = inner {
                let it = render_type(inner);
                let et = render_type(&**elem);
                let mut wrapper = String::from_str("&mut impl AsMut<");
                wrapper.append(it.as_str());
                wrapper.append(">");
                return Ok(
                    make_direct_plan(
                        p,
                        RuleKind::AsMutSeq,
                        wrapper,
                        RawParam::MutPtr(et),
                        true,
                        true,
                        Ownership::BorrowedTemporary,
                    ),
                );
            }
        }
        if let Some(inner) = CFFIAnalyzer::extract_as_mut_generic(&p.ty) {
            if let TypeShape::Slice { elem } = inner {
                let it = render_type(inner);
                let et = render_type(&**elem);
                let mut wrapper = String::from_str("impl AsMut<");
                wrapper.append(it.as_str());
                wrapper.append(">");
                return Ok(
                    make_direct_plan(
                        p,
                        RuleKind::AsMutSeq,
                        wrapper,
                        RawParam::MutPtr(et),
                        true,
                        true,
                        Ownership::BorrowedTemporary,
                    ),
                );
            }
        }
        return Ok(plan_tail(p));
    }
    Ok(plan_tail(p))
}

/// Applies the rules tried after the conversion bounds; see
/// [`classify_tail_spec`]. None of them can fail.
fn plan_tail(p: &DeclaredParameter) -> (plan: ParameterPlan)
    requires
        classify_spec(p.ty, true) == classify_tail_spec(p.ty),
        !(classify_tail_spec(p.ty) is OptionDefault),
    ensures
        param_plan_matches(*p, true, plan),
{
    let ty = &p.ty;
    if CFFIAnalyzer::is_impl_trait_named(ty, "ToString") {
        let mut conv: Vec<ConvStep> = Vec::new();
        conv.push(ConvStep::BindCStringHolder { via: TextSource::ToStringArg });
        conv.push(ConvStep::PtrFromCStringHolder);
        proof {
            assert(conv@ =~= seq![
                ConvStep::BindCStringHolder { via: TextSource::ToStringArg },
                ConvStep::PtrFromCStringHolder,
            ]);
        }
        return ParameterPlan {
            rule: RuleKind::Stringify,
            name: p.name.clone(),
            wrapper_ty: "impl ToString".to_owned(),
            raw: RawParam::ConstPtr("c_char".to_owned()),
            conv,
            ownership: Ownership::OwnedTemporary,
        };
    }
    if CFFIAnalyzer::is_impl_trait_named(ty, "Display") {
        let mut conv: Vec<ConvStep> = Vec::new();
        conv.push(ConvStep::BindCStringHolder { via: TextSource::ToStringArg });
        conv.push(ConvStep::PtrFromCStringHolder);
        proof {
            assert(conv@ =~= seq![
                ConvStep::BindCStringHolder { via: TextSource::ToStringArg },
                ConvStep::PtrFromCStringHolder,
            ]);
        }
        return ParameterPlan {
            rule: RuleKind::Stringify,
            name: p.name.clone(),
            wrapper_ty: "impl Display".to_owned(),
            raw: RawParam::ConstPtr("c_char".to_owned()),
            conv,
            ownership: Ownership::OwnedTemporary,
        };
    }
    if CFFIAnalyzer::is_impl_trait_into_vec(ty) {
        let inner = CFFIAnalyzer::extract_vec_inner_type_from_impl_trait(ty);
        let et = match inner {
            Some(t) => render_type(t),
            None => String::new(),
        };
        let mutable = CFFIAnalyzer::into_vec_target_is_mut(ty);
        let wrapper = render_type(ty);
        let raw = if mutable {
            RawParam::MutPtr(et)
        } else {
            RawParam::ConstPtr(et)
        };
        return make_direct_plan(
            p,
            RuleKind::IntoVec,
            wrapper,
            raw,
            mutable,
            false,
            Ownership::BorrowedTemporary,
        );
    }
    if let Some((elem, _len)) = CFFIAnalyzer::extract_array(ty) {
        return make_direct_plan(
            p,
            RuleKind::ArrayValue,
            render_type(ty),
            RawParam::ConstPtr(render_type(elem)),
            false,
            false,
            Ownership::BorrowedTemporary,
        );
    }
    if let Some((elem, _len)) = CFFIAnalyzer::extract_mut_array(ty) {
        return make_direct_plan(
            p,
            RuleKind::ArrayMut,
            render_type(ty),
            RawParam::MutPtr(render_type(elem)),
            true,
            false,
            Ownership::BorrowedTemporary,
        );
    }
    if let Some(elem) = CFFIAnalyzer::extract_slice(ty) {
        return make_direct_plan(
            p,
            RuleKind::SliceRef,
            render_type(ty),
            RawParam::ConstPtr(render_type(elem)),
            false,
            false,
            Ownership::BorrowedTemporary,
        );
    }
    if let Some(elem) = CFFIAnalyzer::extract_mut_slice(ty) {
        return make_direct_plan(
            p,
            RuleKind::SliceMut,
            render_type(ty),
            RawParam::MutPtr(render_type(elem)),
            true,
            false,
            Ownership::BorrowedTemporary,
        );
    }
    if CFFIAnalyzer::is_vec_type(ty) {
        let et = match CFFIAnalyzer::extract_vec_inner_type(ty) {
            Some(t) => render_type(t),
            None => String::new(),
        };
        return make_direct_plan(
            p,
            RuleKind::VecValue,
            render_type(ty),
            RawParam::ConstPtr(et),
            false,
            false,
            Ownership::BorrowedTemporary,
        );
    }
    if CFFIAnalyzer::is_mut_vec_type(ty) {
        let et = match CFFIAnalyzer::extract_vec_inner_type(ty) {
            Some(t) => render_type(t),
            None => String::new(),
        };
        return make_direct_plan(
            p,
            RuleKind::VecMut,
            render_type(ty),
            RawParam::MutPtr(et),
            true,
            false,
            Ownership::BorrowedTemporary,
        );
    }
    let str_hit = match CFFIAnalyzer::extract_ref(ty) {
        Some(e) => match CFFIAnalyzer::extract_path(e) {
            Some(segs) => CFFIAnalyzer::path_is_ident(segs, "str"),
            None => false,
        },
        None => false,
    };
    if str_hit {
        return make_text_plan(p, false, true, render_type(ty));
    }
    let string_value_hit = match CFFIAnalyzer::extract_path(ty) {
        Some(segs) => CFFIAnalyzer::path_is_ident(segs, "String"),
        None => false,
    };
    if string_value_hit {
        return make_text_plan(p, false, true, render_type(ty));
    }
    let ref_string_hit = match CFFIAnalyzer::extract_ref(ty) {
        Some(e) => match CFFIAnalyzer::extract_path(e) {
            Some(segs) => CFFIAnalyzer::path_is_ident(segs, "String"),
            None => false,
        },
        None => false,
    };
    if ref_string_hit {
        return make_text_plan(p, false, false, render_type(ty));
    }
    let mut_string_hit = match CFFIAnalyzer::extract_mut(ty) {
        Some(e) => match CFFIAnalyzer::extract_path(e) {
            Some(segs) => CFFIAnalyzer::path_is_ident(segs, "String"),
            None => false,
        },
        None => false,
    };
    if mut_string_hit {
        return make_text_plan(p, true, false, render_type(ty));
    }
    let ty_text = render_type(ty);
    ParameterPlan {
        rule: RuleKind::Passthrough,
        name: p.name.clone(),
        wrapper_ty: ty_text.clone(),
        raw: RawParam::Value(ty_text),
        conv: Vec::new(),
        ownership: Ownership::NoTemporary,
    }
}


/// Whether a resolved conversion mode enables argument conversion.
pub open spec fn convert_enabled_spec(mode: Seq<char>) -> bool {
    contains_spec(mode, "default"@) || contains_spec(mode, "true"@)
}

/// The full contract of a resolved scope configuration.
pub open spec fn scope_config_matches(attrs: Seq<Annotation>, c: EffectiveConfig) -> bool {
    &&& str_value_from_spec(attrs, "library_name"@, 0) == Some(c.library_name@)
    &&& (c.link_kind is Some <==> str_value_from_spec(attrs, "link_type"@, 0) is Some)
    &&& (c.link_kind matches Some(k) ==> str_value_from_spec(attrs, "link_type"@, 0) == Some(k@))
    &&& c.top_prefix@ == match str_value_from_spec(attrs, "func_name_top_prefix"@, 0) {
        Some(p) => p,
        None => Seq::<char>::empty(),
    }
    &&& c.down_prefix@ == match str_value_from_spec(attrs, "func_name_down_prefix"@, 0) {
        Some(p) => p,
        None => Seq::<char>::empty(),
    }
    &&& c.as_result == has_ann_from_spec(attrs, "as_result"@, 0)
    &&& arg_convert_of_spec(attrs) == Some(c.arg_convert@)
    &&& c.error_condition@ == "result as i32 == -1i32"@
}

/// Resolves the scalar settings of one configuration scope. The library
/// name and the conversion mode are required; everything else has a
/// default.
pub fn resolve_scope_config(attrs: &Vec<Annotation>) -> (r: Result<EffectiveConfig, GenError>)
    ensures
        str_value_from_spec(attrs@, "library_name"@, 0) is None ==> (r matches Err(e)
            && e is MissingLibraryName),
        str_value_from_spec(attrs@, "library_name"@, 0) is Some && arg_convert_of_spec(
            attrs@,
        ) is None ==> (r matches Err(e) && e is MissingArgConvert),
        str_value_from_spec(attrs@, "library_name"@, 0) is Some && arg_convert_of_spec(
            attrs@,
        ) is Some ==> (r matches Ok(c) && scope_config_matches(attrs@, c)),
{
    let library_name = match CFFIAttributeAnalyzer::extract_library_name_attr(attrs) {
        Some(n) => n,
        None => {
            return Err(GenError::MissingLibraryName);
        },
    };
    let arg_convert = match CFFIAttributeAnalyzer::extract_arg_convert_attr(attrs) {
        Some(m) => m,
        None => {
            return Err(GenError::MissingArgConvert);
        },
    };
    let link_kind = CFFIAttributeAnalyzer::extract_link_type_attr(attrs);
    let top_prefix = match CFFIAttributeAnalyzer::func_name_top_prefix_attr(attrs) {
        Some(p) => p,
        None => String::new(),
    };
    let down_prefix = match CFFIAttributeAnalyzer::func_name_down_prefix_attr(attrs) {
        Some(p) => p,
        None => String::new(),
    };
    let as_result = CFFIAttributeAnalyzer::is_as_result_attr(attrs);
    Ok(
        EffectiveConfig {
            library_name,
            link_kind,
            top_prefix,
            down_prefix,
            as_result,
            error_condition: "result as i32 == -1i32".to_owned(),
            arg_convert,
        },
    )
}

/// The full contract of a per-function configuration snapshot: a
/// function-level annotation wins over the scope value for every
/// overridable key, the as-result flag can only be turned on, and a top
/// prefix override leaves the down prefix as it was, and the other way
/// round.
pub open spec fn fn_config_matches(
    scope: EffectiveConfig,
    attrs: Seq<Annotation>,
    c: EffectiveConfig,
) -> bool {
    &&& c.library_name@ == scope.library_name@
    &&& (c.link_kind is Some <==> scope.link_kind is Some)
    &&& (c.link_kind matches Some(k) ==> scope.link_kind matches Some(k2) && k@ == k2@)
    &&& c.arg_convert@ == match arg_convert_of_spec(attrs) {
        Some(v) => v,
        None => scope.arg_convert@,
    }
    &&& c.as_result == (has_ann_from_spec(attrs, "as_result"@, 0) || scope.as_result)
    &&& match str_value_from_spec(attrs, "func_name_top_prefix"@, 0) {
        Some(p) => c.top_prefix@ == p && c.down_prefix@ == scope.down_prefix@,
        None => match str_value_from_spec(attrs, "func_name_down_prefix"@, 0) {
            Some(d) => c.down_prefix@ == d && c.top_prefix@ == scope.top_prefix@,
            None => c.top_prefix@ == scope.top_prefix@ && c.down_prefix@ == scope.down_prefix@,
        },
    }
    &&& c.error_condition@ == match str_value_from_spec(attrs, "error_condition"@, 0) {
        Some(ec) => ec,
        None => scope.error_condition@,
    }
}

/// Derives the configuration snapshot of one function from the scope
/// configuration and the function's annotations. Fails exactly when a
/// function-level error-condition expression does not lex.
pub fn resolve_function_config(scope: &EffectiveConfig, attrs: &Vec<Annotation>) -> (r: Result<
    EffectiveConfig,
    GenError,
>)
    ensures
        (str_value_from_spec(attrs@, "error_condition"@, 0) matches Some(ec) && !lexes_ok(ec))
            ==> (r matches Err(e) && e matches GenError::InvalidExpression(t) && t@
            == str_value_from_spec(attrs@, "error_condition"@, 0)->Some_0),
        (match str_value_from_spec(attrs@, "error_condition"@, 0) {
            Some(ec) => lexes_ok(ec),
            None => true,
        }) ==> (r matches Ok(c) && fn_config_matches(*scope, attrs@, c)),
{
    let error_condition = match CFFIAttributeAnalyzer::extract_error_condition_attr(attrs) {
        Some(ec) => {
            if !lex_check(ec.as_str()) {
                return Err(GenError::InvalidExpression(ec));
            }
            ec
        },
        None => scope.error_condition.clone(),
    };
    let arg_convert = match CFFIAttributeAnalyzer::extract_arg_convert_attr(attrs) {
        Some(v) => v,
        None => scope.arg_convert.clone(),
    };
    let as_result = CFFIAttributeAnalyzer::is_as_result_attr(attrs) || scope.as_result;
    let mut top_prefix = scope.top_prefix.clone();
    let mut down_prefix = scope.down_prefix.clone();
    match CFFIAttributeAnalyzer::func_name_top_prefix_attr(attrs) {
        Some(p) => {
            top_prefix = p;
        },
        None => {
            if let Some(d) = CFFIAttributeAnalyzer::func_name_down_prefix_attr(attrs) {
                down_prefix = d;
            }
        },
    }
    Ok(
        EffectiveConfig {
            library_name: scope.library_name.clone(),
            link_kind: match &scope.link_kind {
                Some(k) => Some(k.clone()),
                None => None,
            },
            top_prefix,
            down_prefix,
            as_result,
            error_condition,
            arg_convert,
        },
    )
}

/// The emitted wrapper symbol: the alias when one is given, else the
/// declared name.
pub open spec fn wrapper_name_spec(f: DeclaredFunction) -> Seq<char> {
    match str_value_from_spec(f.attrs@, "alias"@, 0) {
        Some(a) => a,
        None => f.name@,
    }
}

/// The resolved foreign symbol: the top prefix wins over the down prefix;
/// with neither configured the declared name stands. The alias never
/// enters foreign symbol resolution.
pub open spec fn extern_name_spec(f: DeclaredFunction, cfg: EffectiveConfig) -> Seq<char> {
    if cfg.top_prefix@.len() > 0 {
        cfg.top_prefix@ + f.name@
    } else if cfg.down_prefix@.len() > 0 {
        cfg.down_prefix@ + f.name@
    } else {
        f.name@
    }
}

/// The failure variant the emitted wrapper reports: the two designated
/// lifecycle symbols get their dedicated variants whatever the as-result
/// flag says; every other function shares the generic one.
pub open spec fn error_variant_spec(f: DeclaredFunction) -> ErrorVariant {
    if wrapper_name_spec(f) == "DxLib_Init"@ {
        ErrorVariant::Initialize
    } else if wrapper_name_spec(f) == "DxLib_End"@ {
        ErrorVariant::Finalize
    } else {
        ErrorVariant::Other
    }
}

/// The payload of the first failing parameter from position `i` on, if
/// any.
pub open spec fn first_param_err_from_spec(
    params: Seq<DeclaredParameter>,
    enabled: bool,
    i: int,
) -> Option<Seq<char>>
    decreases params.len() - i,
{
    if 0 <= i < params.len() {
        if param_fails_spec(params[i], enabled) {
            Some(option_default_of_spec(params[i].attrs@)->Some_0)
        } else {
            first_param_err_from_spec(params, enabled, i + 1)
        }
    } else {
        None
    }
}

proof fn lemma_first_err_here(params: Seq<DeclaredParameter>, enabled: bool, i: int)
    requires
        0 <= i < params.len(),
        forall|k: int| 0 <= k < i ==> !param_fails_spec(#[trigger] params[k], enabled),
        param_fails_spec(params[i], enabled),
    ensures
        first_param_err_from_spec(params, enabled, 0) == Some(
            option_default_of_spec(params[i].attrs@)->Some_0,
        ),
    decreases i,
{
    lemma_first_err_from(params, enabled, 0, i);
}

proof fn lemma_first_err_from(params: Seq<DeclaredParameter>, enabled: bool, j: int, i: int)
    requires
        0 <= j <= i < params.len(),
        forall|k: int| j <= k < i ==> !param_fails_spec(#[trigger] params[k], enabled),
        param_fails_spec(params[i], enabled),
    ensures
        first_param_err_from_spec(params, enabled, j) == Some(
            option_default_of_spec(params[i].attrs@)->Some_0,
        ),
    decreases i - j,
{
    if j < i {
        lemma_first_err_from(params, enabled, j + 1, i);
    }
}

proof fn lemma_no_err_from(params: Seq<DeclaredParameter>, enabled: bool, j: int)
    requires
        0 <= j <= params.len(),
        forall|k: int| j <= k < params.len() ==> !param_fails_spec(#[trigger] params[k], enabled),
    ensures
        first_param_err_from_spec(params, enabled, j) is None,
    decreases params.len() - j,
{
    if j < params.len() {
        lemma_no_err_from(params, enabled, j + 1);
    }
}

/// The full contract of a function plan: every field is pinned by the
/// declared function and its configuration snapshot.
pub open spec fn function_plan_matches(
    f: DeclaredFunction,
    cfg: EffectiveConfig,
    plan: FunctionPlan,
) -> bool {
    let enabled = convert_enabled_spec(cfg.arg_convert@);
    &&& plan.wrapper_name@ == wrapper_name_spec(f)
    &&& plan.extern_name@ == extern_name_spec(f, cfg)
    &&& plan.params@.len() == f.params@.len()
    &&& forall|i: int| 0 <= i < f.params@.len() ==> param_plan_matches(
        f.params@[i],
        enabled,
        #[trigger] plan.params@[i],
    )
    &&& f.ret matches Some(t) && plan.return_ty@ == render_type_spec(t)
    &&& plan.as_result == cfg.as_result
    &&& plan.error_condition@ == cfg.error_condition@
    &&& plan.error_variant == error_variant_spec(f)
    &&& plan.library_name@ == cfg.library_name@
    &&& (plan.link_kind is Some <==> cfg.link_kind is Some)
    &&& (plan.link_kind matches Some(k) ==> cfg.link_kind matches Some(k2) && k@ == k2@)
}

/// Builds the plan of one declared function under its configuration
/// snapshot: the symbol names, the parameter plans in order, the return
/// strategy and the failure variant. Fails when the declaration has no
/// return type or a parameter's default payload does not lex.
pub fn plan_function(f: &DeclaredFunction, cfg: &EffectiveConfig) -> (r: Result<
    FunctionPlan,
    GenError,
>)
    ensures
        f.ret is None ==> (r matches Err(e) && e matches GenError::MissingReturnType(t) && t@
            == f.name@),
        (f.ret is Some && first_param_err_from_spec(
            f.params@,
            convert_enabled_spec(cfg.arg_convert@),
            0,
        ) matches Some(pay)) ==> (r matches Err(e) && e matches GenError::InvalidExpression(t)
            && t@ == first_param_err_from_spec(
                f.params@,
                convert_enabled_spec(cfg.arg_convert@),
                0,
            )->Some_0),
        f.ret is Some && first_param_err_from_spec(
            f.params@,
            convert_enabled_spec(cfg.arg_convert@),
            0,
        ) is None ==> (r matches Ok(plan) && function_plan_matches(*f, *cfg, plan)),
{
    let return_ty = match CFFIAnalyzer::get_return_type(f) {
        Some(t) => render_type(t),
        None => {
            return Err(GenError::MissingReturnType(f.name.clone()));
        },
    };
    let enabled = str_contains(cfg.arg_convert.as_str(), "default") || str_contains(
        cfg.arg_convert.as_str(),
        "true",
    );
    let mut params: Vec<ParameterPlan> = Vec::new();
    let n = f.params.len();
    let mut i: usize = 0;
    while i < n
        invariant
            n == f.params@.len(),
            i <= n,
            params@.len() == i,
            f.ret is Some,
            enabled == convert_enabled_spec(cfg.arg_convert@),
            forall|k: int| 0 <= k < i ==> !param_fails_spec(#[trigger] f.params@[k], enabled),
            forall|k: int| 0 <= k < i ==> param_plan_matches(
                f.params@[k],
                enabled,
                #[trigger] params@[k],
            ),
        decreases n - i,
    {
        match plan_parameter(&f.params[i], enabled) {
            Ok(pl) => {
                params.push(pl);
            },
            Err(e) => {
                proof {
                    lemma_first_err_here(f.params@, enabled, i as int);
                }
                return Err(e);
            },
        }
        i += 1;
    }
    proof {
        lemma_no_err_from(f.params@, enabled, 0);
    }
    let wrapper_name = match CFFIAttributeAnalyzer::extract_func_alias_attr(&f.attrs) {
        Some(a) => a,
        None => f.name.clone(),
    };
    let extern_name = if !cfg.top_prefix.as_str().is_empty() {
        let mut en = cfg.top_prefix.clone();
        en.append(f.name.as_str());
        en
    } else if !cfg.down_prefix.as_str().is_empty() {
        let mut en = cfg.down_prefix.clone();
        en.append(f.name.as_str());
        en
    } else {
        f.name.clone()
    };
    let error_variant = if crate::text::str_eq(wrapper_name.as_str(), "DxLib_Init") {
        ErrorVariant::Initialize
    } else if crate::text::str_eq(wrapper_name.as_str(), "DxLib_End") {
        ErrorVariant::Finalize
    } else {
        ErrorVariant::Other
    };
    Ok(
        FunctionPlan {
            extern_name,
            wrapper_name,
            params,
            return_ty,
            as_result: cfg.as_result,
            error_condition: cfg.error_condition.clone(),
            error_variant,
            library_name: cfg.library_name.clone(),
            link_kind: match &cfg.link_kind {
                Some(k) => Some(k.clone()),
                None => None,
            },
        },
    )
}

/// Whether the applying rule hands the foreign side a mutable pointer.
pub open spec fn rule_takes_mut_pointer_spec(ty: TypeShape, enabled: bool) -> bool {
    match classify_spec(ty, enabled) {
        RuleKind::AsMutSeq => true,
        RuleKind::ArrayMut => true,
        RuleKind::SliceMut => true,
        RuleKind::VecMut => true,
        RuleKind::TextMut => true,
        RuleKind::IntoVec => ty matches TypeShape::ImplTrait { bounds } && into_vec_mut_from_spec(
            bounds@,
            0,
        ),
        _ => false,
    }
}

/// Law: whatever rule applies, the raw parameter is a pointer or the value
/// passed through unchanged — never an aggregate built by the conversion —
/// and the pointer is mutable exactly when the declared type is held
/// mutably under the applying rule.
pub proof fn lemma_raw_param_pointer_or_value(
    p: DeclaredParameter,
    enabled: bool,
    plan: ParameterPlan,
)
    requires
        param_plan_matches(p, enabled, plan),
    ensures
        plan.raw is Value <==> (plan.rule is Passthrough || plan.rule is OptionDefault),
        !(plan.raw is Value) ==> (plan.raw is ConstPtr || plan.raw is MutPtr),
        plan.raw is MutPtr <==> rule_takes_mut_pointer_spec(p.ty, enabled),
{
}

/// Law: every owned-temporary text conversion binds the temporary holder
/// strictly before the raw pointer is derived from it; the renderer places
/// both bindings, in this order, in the wrapper body ahead of the foreign
/// call, so the holder stays in scope through the call.
pub proof fn lemma_holder_bound_before_pointer(
    p: DeclaredParameter,
    enabled: bool,
    plan: ParameterPlan,
)
    requires
        param_plan_matches(p, enabled, plan),
        plan.rule is AsRefText || plan.rule is Stringify || plan.rule is TextConst
            || plan.rule is TextMut,
    ensures
        plan.ownership == Ownership::OwnedTemporary,
        plan.conv@.len() == 2,
        plan.conv@[0] is BindCStringHolder || plan.conv@[0] is BindRawOwnerHolder,
        plan.conv@[1] is PtrFromCStringHolder || plan.conv@[1] is PtrFromRawOwnerHolder,
{
}

/// Law: a function-level annotation always wins over the scope default,
/// for every overridable key.
pub proof fn lemma_function_level_wins(
    scope: EffectiveConfig,
    attrs: Seq<Annotation>,
    c: EffectiveConfig,
)
    requires
        fn_config_matches(scope, attrs, c),
    ensures
        str_value_from_spec(attrs, "func_name_top_prefix"@, 0) matches Some(p) ==> c.top_prefix@
            == p,
        (str_value_from_spec(attrs, "func_name_top_prefix"@, 0) is None && str_value_from_spec(
            attrs,
            "func_name_down_prefix"@,
            0,
        ) matches Some(d)) ==> c.down_prefix@ == str_value_from_spec(
            attrs,
            "func_name_down_prefix"@,
            0,
        )->Some_0,
        has_ann_from_spec(attrs, "as_result"@, 0) ==> c.as_result,
        str_value_from_spec(attrs, "error_condition"@, 0) matches Some(ec) ==> c.error_condition@
            == ec,
        arg_convert_of_spec(attrs) matches Some(v) ==> c.arg_convert@ == v,
{
}

/// Law: any overridable key left unset at function level falls back
/// unchanged to the scope default, and an as-result override can only
/// turn the flag on, never off.
pub proof fn lemma_scope_default_preserved(
    scope: EffectiveConfig,
    attrs: Seq<Annotation>,
    c: EffectiveConfig,
)
    requires
        fn_config_matches(scope, attrs, c),
    ensures
        arg_convert_of_spec(attrs) is None ==> c.arg_convert@ == scope.arg_convert@,
        !has_ann_from_spec(attrs, "as_result"@, 0) ==> c.as_result == scope.as_result,
        scope.as_result ==> c.as_result,
        str_value_from_spec(attrs, "error_condition"@, 0) is None ==> c.error_condition@
            == scope.error_condition@,
        str_value_from_spec(attrs, "func_name_top_prefix"@, 0) is None && str_value_from_spec(
            attrs,
            "func_name_down_prefix"@,
            0,
        ) is None ==> c.top_prefix@ == scope.top_prefix@ && c.down_prefix@ == scope.down_prefix@,
        c.library_name@ == scope.library_name@,
{
}

/// Law: the two designated lifecycle symbols always receive their
/// dedicated failure variants, whatever the as-result flag says, and every
/// other wrapper receives the generic variant.
pub proof fn lemma_lifecycle_variants(f: DeclaredFunction, cfg: EffectiveConfig, plan: FunctionPlan)
    requires
        function_plan_matches(f, cfg, plan),
    ensures
        wrapper_name_spec(f) == "DxLib_Init"@ ==> plan.error_variant == ErrorVariant::Initialize,
        wrapper_name_spec(f) == "DxLib_End"@ ==> plan.error_variant == ErrorVariant::Finalize,
        wrapper_name_spec(f) != "DxLib_Init"@ && wrapper_name_spec(f) != "DxLib_End"@
            ==> plan.error_variant == ErrorVariant::Other,
{
    reveal_strlit("DxLib_Init");
    reveal_strlit("DxLib_End");
    assert("DxLib_Init"@.len() == 10);
    assert("DxLib_End"@.len() == 9);
}


/// The mathematical value of a configuration snapshot: every scalar
/// setting as a sequence of characters or a flag.
pub struct ConfigView {
    pub library_name: Seq<char>,
    pub link_kind: Option<Seq<char>>,
    pub top_prefix: Seq<char>,
    pub down_prefix: Seq<char>,
    pub as_result: bool,
    pub error_condition: Seq<char>,
    pub arg_convert: Seq<char>,
}

/// The value of a configuration snapshot.
pub open spec fn cfg_view(c: EffectiveConfig) -> ConfigView {
    ConfigView {
        library_name: c.library_name@,
        link_kind: match c.link_kind {
            Some(k) => Some(k@),
            None => None,
        },
        top_prefix: c.top_prefix@,
        down_prefix: c.down_prefix@,
        as_result: c.as_result,
        error_condition: c.error_condition@,
        arg_convert: c.arg_convert@,
    }
}

/// The value of the scope configuration that a scope's annotations
/// resolve to, when they resolve at all.
pub open spec fn scope_cfg_v_spec(attrs: Seq<Annotation>) -> ConfigView {
    ConfigView {
        library_name: str_value_from_spec(attrs, "library_name"@, 0)->Some_0,
        link_kind: str_value_from_spec(attrs, "link_type"@, 0),
        top_prefix: match str_value_from_spec(attrs, "func_name_top_prefix"@, 0) {
            Some(p) => p,
            None => Seq::empty(),
        },
        down_prefix: match str_value_from_spec(attrs, "func_name_down_prefix"@, 0) {
            Some(p) => p,
            None => Seq::empty(),
        },
        as_result: has_ann_from_spec(attrs, "as_result"@, 0),
        error_condition: "result as i32 == -1i32"@,
        arg_convert: arg_convert_of_spec(attrs)->Some_0,
    }
}

/// The value of the per-function snapshot derived from the configuration
/// in effect and the function's annotations.
pub open spec fn fn_cfg_v_spec(cur: ConfigView, attrs: Seq<Annotation>) -> ConfigView {
    ConfigView {
        library_name: cur.library_name,
        link_kind: cur.link_kind,
        top_prefix: match str_value_from_spec(attrs, "func_name_top_prefix"@, 0) {
            Some(p) => p,
            None => cur.top_prefix,
        },
        down_prefix: match str_value_from_spec(attrs, "func_name_top_prefix"@, 0) {
            Some(_) => cur.down_prefix,
            None => match str_value_from_spec(attrs, "func_name_down_prefix"@, 0) {
                Some(d) => d,
                None => cur.down_prefix,
            },
        },
        as_result: has_ann_from_spec(attrs, "as_result"@, 0) || cur.as_result,
        error_condition: match str_value_from_spec(attrs, "error_condition"@, 0) {
            Some(ec) => ec,
            None => cur.error_condition,
        },
        arg_convert: match arg_convert_of_spec(attrs) {
            Some(v) => v,
            None => cur.arg_convert,
        },
    }
}

/// The scope configuration resolves to its value.
pub proof fn lemma_scope_cfg_view(attrs: Seq<Annotation>, c: EffectiveConfig)
    requires
        scope_config_matches(attrs, c),
    ensures
        cfg_view(c) == scope_cfg_v_spec(attrs),
{
    assert(cfg_view(c) =~= scope_cfg_v_spec(attrs));
}

/// The per-function snapshot resolves to its value.
pub proof fn lemma_fn_cfg_view(scope: EffectiveConfig, attrs: Seq<Annotation>, c: EffectiveConfig)
    requires
        fn_config_matches(scope, attrs, c),
    ensures
        cfg_view(c) == fn_cfg_v_spec(cfg_view(scope), attrs),
{
    assert(cfg_view(c) =~= fn_cfg_v_spec(cfg_view(scope), attrs));
}


/// Whether the sequence target of an owned-sequence conversion bound is
/// held by mutable reference.
pub open spec fn into_vec_mut_of_spec(ty: TypeShape) -> bool {
    ty matches TypeShape::ImplTrait { bounds } && into_vec_mut_from_spec(bounds@, 0)
}

/// The rendered element type of an owned-sequence conversion bound.
pub open spec fn into_vec_elem_text_spec(ty: TypeShape) -> Seq<char> {
    match ty {
        TypeShape::ImplTrait { bounds } => match into_vec_inner_from_spec(bounds@, 0) {
            Some(t) => render_type_spec(t),
            None => Seq::empty(),
        },
        _ => Seq::empty(),
    }
}

} // verus!

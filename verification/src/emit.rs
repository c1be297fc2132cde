//! The module emitter: renders function plans as source text and
//! concatenates, per configuration scope, one foreign-declaration block
//! and one wrapper function per declared function, in declaration order.
//!
//! The emitted text is pinned character for character by spec functions
//! of the declared input, so emission is a pure function: running it twice
//! on the same input yields identical text.
use vstd::prelude::*;

use crate::attrs::{arg_convert_of_spec, str_value_from_spec};
use crate::cffi_error::GenError;
use crate::classifier::CFFIAnalyzer;
use crate::lexcheck::lexes_ok;
use crate::model::{Annotation, DeclaredFunction, DeclaredParameter, EffectiveConfig, TypeShape};
use crate::plan::{
    cfg_view, classify_spec, convert_enabled_spec, fn_cfg_v_spec, first_param_err_from_spec,
    function_plan_matches, option_default_text_spec, option_inner_spec, param_plan_matches,
    plan_function, raw_matches_spec, resolve_function_config, resolve_scope_config,
    scope_cfg_v_spec, text_take_ref_spec, wrapper_name_spec,
    wrapper_ty_text_spec, ConfigView, ConvStep, ErrorVariant, FunctionPlan, ParameterPlan,
    RawParam, RuleKind, TextSource, lemma_fn_cfg_view, lemma_scope_cfg_view,
    vec_elem_text_spec, into_vec_elem_text_spec, into_vec_mut_of_spec, bound_payload_spec,
};
use crate::render::render_type_spec;

verus! {

/// The foreign symbol name under the configuration in effect: the top
/// prefix wins over the down prefix; with neither the declared name
/// stands.
pub open spec fn extern_name_v_spec(f: DeclaredFunction, cv: ConfigView) -> Seq<char> {
    if cv.top_prefix.len() > 0 {
        cv.top_prefix + f.name@
    } else if cv.down_prefix.len() > 0 {
        cv.down_prefix + f.name@
    } else {
        f.name@
    }
}

/// The raw C-facing parameter type text that the applying rule emits.
pub open spec fn raw_param_text_spec(ty: TypeShape, enabled: bool) -> Seq<char> {
    match classify_spec(ty, enabled) {
        RuleKind::OptionDefault => render_type_spec(option_inner_spec(ty)),
        RuleKind::AsRefText => "*const "@ + "::std::os::raw::c_char"@,
        RuleKind::AsRefDirect => "*const "@ + render_type_spec(bound_payload_spec(ty)->Some_0),
        RuleKind::AsMutSeq => "*mut "@ + render_type_spec(*bound_payload_spec(ty)->Some_0->Slice_elem),
        RuleKind::Stringify => "*const "@ + "c_char"@,
        RuleKind::IntoVec => {
            if into_vec_mut_of_spec(ty) {
                "*mut "@ + into_vec_elem_text_spec(ty)
            } else {
                "*const "@ + into_vec_elem_text_spec(ty)
            }
        },
        RuleKind::ArrayValue => "*const "@ + render_type_spec(*ty->Array_elem),
        RuleKind::ArrayMut => "*mut "@ + render_type_spec(*ty->Reference_elem->Array_elem),
        RuleKind::SliceRef => "*const "@ + render_type_spec(*ty->Reference_elem->Slice_elem),
        RuleKind::SliceMut => "*mut "@ + render_type_spec(*ty->Reference_elem->Slice_elem),
        RuleKind::VecValue => "*const "@ + vec_elem_text_spec(ty),
        RuleKind::VecMut => "*mut "@ + vec_elem_text_spec(ty),
        RuleKind::TextConst => "*const "@ + "c_char"@,
        RuleKind::TextMut => "*mut "@ + "c_char"@,
        RuleKind::Passthrough => render_type_spec(ty),
    }
}

/// The statement unwrapping an optional value.
pub open spec fn unwrap_option_text_spec(name: Seq<char>, dflt: Seq<char>) -> Seq<char> {
    "    let "@ + name + " = match "@ + name + " { Some(value) => value, None => "@ + dflt
        + " };\n"@
}

/// The two statements binding a null-terminated holder and deriving its
/// read-only pointer.
pub open spec fn cstring_holder_text_spec(name: Seq<char>, via_as_ref: bool) -> Seq<char> {
    if via_as_ref {
        "    let __"@ + name + "_holder = CStringHolder::new("@ + name + ".as_ref());\n    let "@
            + name + " = __"@ + name + "_holder.as_ptr();\n"@
    } else {
        "    let __"@ + name + "_holder = CStringHolder::new("@ + name
            + ".to_string());\n    let "@ + name + " = __"@ + name + "_holder.as_ptr();\n"@
    }
}

/// The one statement taking a pointer directly.
pub open spec fn ptr_direct_text_spec(name: Seq<char>, mutable: bool, via_conv: bool) -> Seq<char> {
    if via_conv && mutable {
        "    let "@ + name + " = "@ + name + ".as_mut().as_mut_ptr();\n"@
    } else if via_conv {
        "    let "@ + name + " = "@ + name + ".as_ref().as_ptr();\n"@
    } else if mutable {
        "    let "@ + name + " = "@ + name + ".as_mut_ptr();\n"@
    } else {
        "    let "@ + name + " = "@ + name + ".as_ptr();\n"@
    }
}

/// The statements binding a general raw-owner holder for a read-only text
/// value and deriving its pointer while keeping the owner in scope.
pub open spec fn char_ptr_const_text_spec(name: Seq<char>, take_ref: bool) -> Seq<char> {
    if take_ref {
        "    let __"@ + name + "_holder = ToGeneralRawType::to_general_type_ref("@ + "&"@ + name
            + ");\n"@ + "    let (__"@ + name + "_ptr, __"@ + name + "_keep) = match __"@ + name
            + "_holder {\n        GeneralRawType::CharPointer(RawPointer::Constant { ptr, owner, .. }) => (ptr, owner),\n        _ => panic!(\"Expected a valid CharPointer\"),\n    };\n    let "@
            + name + ": *const c_char = __"@ + name + "_ptr;\n"@
    } else {
        "    let __"@ + name + "_holder = ToGeneralRawType::to_general_type_ref("@ + name
            + ");\n"@ + "    let (__"@ + name + "_ptr, __"@ + name + "_keep) = match __"@ + name
            + "_holder {\n        GeneralRawType::CharPointer(RawPointer::Constant { ptr, owner, .. }) => (ptr, owner),\n        _ => panic!(\"Expected a valid CharPointer\"),\n    };\n    let "@
            + name + ": *const c_char = __"@ + name + "_ptr;\n"@
    }
}

/// As [`char_ptr_const_text_spec`], for a mutable text value.
pub open spec fn char_ptr_mut_text_spec(name: Seq<char>) -> Seq<char> {
    "    let __"@ + name + "_holder = ToGeneralRawType::to_general_type_mut("@ + name + ");\n"@
        + "    let (__"@ + name + "_ptr, __"@ + name + "_keep) = match __"@ + name
        + "_holder {\n        GeneralRawType::CharPointer(RawPointer::Mutable { ptr, owner, .. }) => (ptr, owner),\n        _ => panic!(\"Expected a valid CharPointer\"),\n    };\n    let "@
        + name + ": *mut c_char = __"@ + name + "_ptr;\n"@
}

/// The conversion statements the applying rule emits for one parameter.
pub open spec fn conv_text_spec(p: DeclaredParameter, enabled: bool) -> Seq<char> {
    match classify_spec(p.ty, enabled) {
        RuleKind::OptionDefault => unwrap_option_text_spec(
            p.name@,
            option_default_text_spec(p.attrs@),
        ),
        RuleKind::AsRefText => cstring_holder_text_spec(p.name@, true),
        RuleKind::AsRefDirect => ptr_direct_text_spec(p.name@, false, true),
        RuleKind::AsMutSeq => ptr_direct_text_spec(p.name@, true, true),
        RuleKind::Stringify => cstring_holder_text_spec(p.name@, false),
        RuleKind::IntoVec => ptr_direct_text_spec(p.name@, into_vec_mut_of_spec(p.ty), false),
        RuleKind::ArrayValue => ptr_direct_text_spec(p.name@, false, false),
        RuleKind::ArrayMut => ptr_direct_text_spec(p.name@, true, false),
        RuleKind::SliceRef => ptr_direct_text_spec(p.name@, false, false),
        RuleKind::SliceMut => ptr_direct_text_spec(p.name@, true, false),
        RuleKind::VecValue => ptr_direct_text_spec(p.name@, false, false),
        RuleKind::VecMut => ptr_direct_text_spec(p.name@, true, false),
        RuleKind::TextConst => char_ptr_const_text_spec(p.name@, text_take_ref_spec(p.ty)),
        RuleKind::TextMut => char_ptr_mut_text_spec(p.name@),
        RuleKind::Passthrough => Seq::empty(),
    }
}

/// The comma-separated wrapper-facing parameter list from position `i` on.
pub open spec fn wrapper_params_from_spec(
    params: Seq<DeclaredParameter>,
    enabled: bool,
    i: int,
) -> Seq<char>
    decreases params.len() - i,
{
    if 0 <= i < params.len() {
        if i + 1 < params.len() {
            params[i].name@ + ": "@ + wrapper_ty_text_spec(params[i].ty, enabled) + ", "@
                + wrapper_params_from_spec(params, enabled, i + 1)
        } else {
            params[i].name@ + ": "@ + wrapper_ty_text_spec(params[i].ty, enabled)
        }
    } else {
        Seq::empty()
    }
}

/// The comma-separated raw parameter list from position `i` on.
pub open spec fn raw_params_from_spec(
    params: Seq<DeclaredParameter>,
    enabled: bool,
    i: int,
) -> Seq<char>
    decreases params.len() - i,
{
    if 0 <= i < params.len() {
        if i + 1 < params.len() {
            params[i].name@ + ": "@ + raw_param_text_spec(params[i].ty, enabled) + ", "@
                + raw_params_from_spec(params, enabled, i + 1)
        } else {
            params[i].name@ + ": "@ + raw_param_text_spec(params[i].ty, enabled)
        }
    } else {
        Seq::empty()
    }
}

/// The comma-separated call-site identifier list from position `i` on.
pub open spec fn call_idents_from_spec(params: Seq<DeclaredParameter>, i: int) -> Seq<char>
    decreases params.len() - i,
{
    if 0 <= i < params.len() {
        if i + 1 < params.len() {
            params[i].name@ + ", "@ + call_idents_from_spec(params, i + 1)
        } else {
            params[i].name@
        }
    } else {
        Seq::empty()
    }
}

/// All conversion statements of a function, in parameter order, from
/// position `i` on.
pub open spec fn convs_from_spec(params: Seq<DeclaredParameter>, enabled: bool, i: int) -> Seq<char>
    decreases params.len() - i,
{
    if 0 <= i < params.len() {
        conv_text_spec(params[i], enabled) + convs_from_spec(params, enabled, i + 1)
    } else {
        Seq::empty()
    }
}

/// The foreign-declaration block of one function.
pub open spec fn extern_block_text_spec(f: DeclaredFunction, cv: ConfigView) -> Seq<char> {
    let enabled = convert_enabled_spec(cv.arg_convert);
    match cv.link_kind {
        Some(k) => "#[link(name = \""@ + cv.library_name + "\", kind = \""@ + k
            + "\")]\nunsafe extern \"stdcall\" {\n    fn "@ + extern_name_v_spec(f, cv) + "("@
            + raw_params_from_spec(f.params@, enabled, 0) + ") -> "@ + render_type_spec(
            f.ret->Some_0,
        ) + ";\n}\n"@,
        None => "#[link(name = \""@ + cv.library_name
            + "\")]\nunsafe extern \"stdcall\" {\n    fn "@ + extern_name_v_spec(f, cv) + "("@
            + raw_params_from_spec(f.params@, enabled, 0) + ") -> "@ + render_type_spec(
            f.ret->Some_0,
        ) + ";\n}\n"@,
    }
}

/// The failure arm of a result-wrapped wrapper: the two designated
/// lifecycle symbols get their dedicated variants; everything else gets
/// the generic variant carrying the wrapper's name.
pub open spec fn err_arm_text_spec(f: DeclaredFunction) -> Seq<char> {
    if wrapper_name_spec(f) == "DxLib_Init"@ {
        "        return Err(DxLibError::InitializeError);\n"@
    } else if wrapper_name_spec(f) == "DxLib_End"@ {
        "        return Err(DxLibError::FinalizeError);\n"@
    } else {
        "        return Err(DxLibError::Other(format!(\"Error in {}\", \""@ + wrapper_name_spec(f)
            + "\")));\n"@
    }
}

/// The wrapper function of one plan. Under the result-wrapped strategy the
/// predicate picks between the failure variant and success; under raw
/// passthrough a detected failure collapses into the sentinel value `-1`,
/// indistinguishable from a genuine such return, a documented ambiguity
/// of the raw strategy.
pub open spec fn wrapper_fn_text_spec(f: DeclaredFunction, cv: ConfigView) -> Seq<char> {
    let enabled = convert_enabled_spec(cv.arg_convert);
    let ret = render_type_spec(f.ret->Some_0);
    if cv.as_result {
        "pub fn "@ + wrapper_name_spec(f) + "("@ + wrapper_params_from_spec(f.params@, enabled, 0)
            + ") -> Result<"@ + ret + ", DxLibError> {\n"@ + convs_from_spec(f.params@, enabled, 0)
            + "    let result: "@ + ret + " = unsafe { "@ + extern_name_v_spec(f, cv) + "("@
            + call_idents_from_spec(f.params@, 0) + ") };\n    if "@ + cv.error_condition
            + " {\n"@ + err_arm_text_spec(f) + "    } else {\n        return Ok(result);\n    }\n}\n"@
    } else {
        "pub fn "@ + wrapper_name_spec(f) + "("@ + wrapper_params_from_spec(f.params@, enabled, 0)
            + ") -> "@ + ret + " {\n"@ + convs_from_spec(f.params@, enabled, 0)
            + "    let result: "@ + ret + " = unsafe { "@ + extern_name_v_spec(f, cv) + "("@
            + call_idents_from_spec(f.params@, 0)
            + ") };\n    if "@ + cv.error_condition
            + " {\n        return -1;\n    } else {\n        return result;\n    }\n}\n"@
    }
}

/// The whole emitted text of one function: its declaration block followed
/// by its wrapper.
pub open spec fn function_text_spec(f: DeclaredFunction, cv: ConfigView) -> Seq<char> {
    extern_block_text_spec(f, cv) + wrapper_fn_text_spec(f, cv)
}

/// The configuration carried to the next function: name-prefix overrides
/// persist past the function that declared them; every other setting is
/// taken afresh from the scope.
pub open spec fn carry_spec(cur: ConfigView, fc: ConfigView) -> ConfigView {
    ConfigView { top_prefix: fc.top_prefix, down_prefix: fc.down_prefix, ..cur }
}

/// The emitted text of all functions from position `i` on, under the
/// configuration in effect.
pub open spec fn fns_text_from_spec(fns: Seq<DeclaredFunction>, cur: ConfigView, i: int) -> Seq<
    char,
>
    decreases fns.len() - i,
{
    if 0 <= i < fns.len() {
        let fc = fn_cfg_v_spec(cur, fns[i].attrs@);
        function_text_spec(fns[i], fc) + fns_text_from_spec(fns, carry_spec(cur, fc), i + 1)
    } else {
        Seq::empty()
    }
}

/// The whole emitted unit of one configuration scope.
pub open spec fn scope_text_spec(attrs: Seq<Annotation>, fns: Seq<DeclaredFunction>) -> Seq<char> {
    "use std::ffi::CString;\nuse std::os::raw::c_char;\n"@ + fns_text_from_spec(
        fns,
        scope_cfg_v_spec(attrs),
        0,
    )
}

/// The value of a hard generation-time failure.
pub enum ErrSpec {
    MissingLib,
    MissingConv,
    MissingRet(Seq<char>),
    BadExpr(Seq<char>),
}

/// Whether an error value carries the failure the spec names.
pub open spec fn gen_error_matches(e: GenError, s: ErrSpec) -> bool {
    match s {
        ErrSpec::MissingLib => e is MissingLibraryName,
        ErrSpec::MissingConv => e is MissingArgConvert,
        ErrSpec::MissingRet(n) => e matches GenError::MissingReturnType(t) && t@ == n,
        ErrSpec::BadExpr(x) => e matches GenError::InvalidExpression(t) && t@ == x,
    }
}

/// The hard failure one function raises, if any: a missing return type
/// first, then a malformed error-condition expression, then the first
/// malformed default-value payload.
pub open spec fn fn_err_spec(f: DeclaredFunction, scope_conv: Seq<char>) -> Option<ErrSpec> {
    if f.ret is None {
        Some(ErrSpec::MissingRet(f.name@))
    } else {
        let ec = str_value_from_spec(f.attrs@, "error_condition"@, 0);
        if ec matches Some(x) && !lexes_ok(x) {
            Some(ErrSpec::BadExpr(ec->Some_0))
        } else {
            let conv = match arg_convert_of_spec(f.attrs@) {
                Some(v) => v,
                None => scope_conv,
            };
            match first_param_err_from_spec(f.params@, convert_enabled_spec(conv), 0) {
                Some(pay) => Some(ErrSpec::BadExpr(pay)),
                None => None,
            }
        }
    }
}

/// The first hard failure among the declared functions from position `i`
/// on, if any.
pub open spec fn first_fn_err_from_spec(
    fns: Seq<DeclaredFunction>,
    scope_conv: Seq<char>,
    i: int,
) -> Option<ErrSpec>
    decreases fns.len() - i,
{
    if 0 <= i < fns.len() {
        match fn_err_spec(fns[i], scope_conv) {
            Some(e) => Some(e),
            None => first_fn_err_from_spec(fns, scope_conv, i + 1),
        }
    } else {
        None
    }
}

/// The hard failure of a whole scope, if any: the required scope keys
/// first, then the functions in declaration order.
pub open spec fn scope_err_spec(attrs: Seq<Annotation>, fns: Seq<DeclaredFunction>) -> Option<
    ErrSpec,
> {
    if str_value_from_spec(attrs, "library_name"@, 0) is None {
        Some(ErrSpec::MissingLib)
    } else if arg_convert_of_spec(attrs) is None {
        Some(ErrSpec::MissingConv)
    } else {
        first_fn_err_from_spec(fns, scope_cfg_v_spec(attrs).arg_convert, 0)
    }
}

/// Law: emission is a pure function of the declared input: two runs on the
/// same scope yield character-for-character identical text.
pub proof fn lemma_emission_deterministic(
    attrs: Seq<Annotation>,
    fns: Seq<DeclaredFunction>,
    s1: Seq<char>,
    s2: Seq<char>,
)
    requires
        s1 == scope_text_spec(attrs, fns),
        s2 == scope_text_spec(attrs, fns),
    ensures
        s1 == s2,
{
}


/// Whether a text value needs an explicit borrow before the general
/// conversion.
fn text_take_ref(ty: &TypeShape) -> (r: bool)
    ensures
        r == text_take_ref_spec(*ty),
{
    let str_hit = match CFFIAnalyzer::extract_ref(ty) {
        Some(e) => match CFFIAnalyzer::extract_path(e) {
            Some(segs) => CFFIAnalyzer::path_is_ident(segs, "str"),
            None => false,
        },
        None => false,
    };
    if str_hit {
        return true;
    }
    match CFFIAnalyzer::extract_path(ty) {
        Some(segs) => CFFIAnalyzer::path_is_ident(segs, "String"),
        None => false,
    }
}

/// Renders the holder-and-pointer conversion of a read-only text value.
fn char_ptr_const_text(ident: &str, take_ref: bool) -> (r: String)
    ensures
        r@ == char_ptr_const_text_spec(ident@, take_ref),
{
    let mut out = String::from_str("    let __");
    out.append(ident);
    out.append("_holder = ToGeneralRawType::to_general_type_ref(");
    if take_ref {
        out.append("&");
    }
    out.append(ident);
    out.append(");\n");
    out.append("    let (__");
    out.append(ident);
    out.append("_ptr, __");
    out.append(ident);
    out.append("_keep) = match __");
    out.append(ident);
    out.append("_holder {\n        GeneralRawType::CharPointer(RawPointer::Constant { ptr, owner, .. }) => (ptr, owner),\n        _ => panic!(\"Expected a valid CharPointer\"),\n    };\n    let ");
    out.append(ident);
    out.append(": *const c_char = __");
    out.append(ident);
    out.append("_ptr;\n");
    out
}

/// Renders the holder-and-pointer conversion of a mutable text value.
fn char_ptr_mut_text(ident: &str) -> (r: String)
    ensures
        r@ == char_ptr_mut_text_spec(ident@),
{
    let mut out = String::from_str("    let __");
    out.append(ident);
    out.append("_holder = ToGeneralRawType::to_general_type_mut(");
    out.append(ident);
    out.append(");\n");
    out.append("    let (__");
    out.append(ident);
    out.append("_ptr, __");
    out.append(ident);
    out.append("_keep) = match __");
    out.append(ident);
    out.append("_holder {\n        GeneralRawType::CharPointer(RawPointer::Mutable { ptr, owner, .. }) => (ptr, owner),\n        _ => panic!(\"Expected a valid CharPointer\"),\n    };\n    let ");
    out.append(ident);
    out.append(": *mut c_char = __");
    out.append(ident);
    out.append("_ptr;\n");
    out
}

/// The conversion-statement renderers for text values, kept together on
/// one carrier type.
pub struct CFFIQuote;

impl CFFIQuote {
    /// Renders the statements that convert a read-only text value into a
    /// constant character pointer, keeping the owner in scope.
    pub fn quote_to_char_ptr_const(ident: &str, ty: &TypeShape) -> (r: String)
        ensures
            r@ == char_ptr_const_text_spec(ident@, text_take_ref_spec(*ty)),
    {
        let take_ref = text_take_ref(ty);
        char_ptr_const_text(ident, take_ref)
    }

    /// Renders the statements that convert a mutable text value into a
    /// mutable character pointer, handing the buffer to the pointer.
    pub fn quote_to_char_ptr_mut(ident: &str) -> (r: String)
        ensures
            r@ == char_ptr_mut_text_spec(ident@),
    {
        char_ptr_mut_text(ident)
    }
}

/// Renders the raw parameter type of one plan.
fn render_raw_text(raw: &RawParam, Ghost(ty): Ghost<TypeShape>, Ghost(enabled): Ghost<bool>) -> (r:
    String)
    requires
        raw_matches_spec(ty, enabled, *raw),
    ensures
        r@ == raw_param_text_spec(ty, enabled),
{
    match raw {
        RawParam::ConstPtr(t) => {
            let mut out = String::from_str("*const ");
            out.append(t.as_str());
            out
        },
        RawParam::MutPtr(t) => {
            let mut out = String::from_str("*mut ");
            out.append(t.as_str());
            out
        },
        RawParam::Value(t) => t.clone(),
    }
}

/// Renders the conversion statements of one parameter plan.
fn render_param_conv(
    plan: &ParameterPlan,
    Ghost(dp): Ghost<DeclaredParameter>,
    Ghost(enabled): Ghost<bool>,
) -> (r: String)
    requires
        param_plan_matches(dp, enabled, *plan),
    ensures
        r@ == conv_text_spec(dp, enabled),
{
    match plan.rule {
        RuleKind::OptionDefault => {
            match &plan.conv[0] {
                ConvStep::UnwrapOption { default_expr } => {
                    let mut out = String::from_str("    let ");
                    out.append(plan.name.as_str());
                    out.append(" = match ");
                    out.append(plan.name.as_str());
                    out.append(" { Some(value) => value, None => ");
                    out.append(default_expr.as_str());
                    out.append(" };\n");
                    out
                },
                _ => vstd::pervasive::unreached(),
            }
        },
        RuleKind::AsRefText => {
            let mut out = String::from_str("    let __");
            out.append(plan.name.as_str());
            out.append("_holder = CStringHolder::new(");
            out.append(plan.name.as_str());
            out.append(".as_ref());\n    let ");
            out.append(plan.name.as_str());
            out.append(" = __");
            out.append(plan.name.as_str());
            out.append("_holder.as_ptr();\n");
            out
        },
        RuleKind::Stringify => {
            let mut out = String::from_str("    let __");
            out.append(plan.name.as_str());
            out.append("_holder = CStringHolder::new(");
            out.append(plan.name.as_str());
            out.append(".to_string());\n    let ");
            out.append(plan.name.as_str());
            out.append(" = __");
            out.append(plan.name.as_str());
            out.append("_holder.as_ptr();\n");
            out
        },
        RuleKind::AsRefDirect => render_ptr_direct(plan.name.as_str(), false, true),
        RuleKind::AsMutSeq => render_ptr_direct(plan.name.as_str(), true, true),
        RuleKind::IntoVec => {
            match &plan.conv[0] {
                ConvStep::PtrDirect { mutable, via_conv: _ } => render_ptr_direct(
                    plan.name.as_str(),
                    *mutable,
                    false,
                ),
                _ => vstd::pervasive::unreached(),
            }
        },
        RuleKind::ArrayValue => render_ptr_direct(plan.name.as_str(), false, false),
        RuleKind::ArrayMut => render_ptr_direct(plan.name.as_str(), true, false),
        RuleKind::SliceRef => render_ptr_direct(plan.name.as_str(), false, false),
        RuleKind::SliceMut => render_ptr_direct(plan.name.as_str(), true, false),
        RuleKind::VecValue => render_ptr_direct(plan.name.as_str(), false, false),
        RuleKind::VecMut => render_ptr_direct(plan.name.as_str(), true, false),
        RuleKind::TextConst => {
            match &plan.conv[0] {
                ConvStep::BindRawOwnerHolder { mutable: _, take_ref } => char_ptr_const_text(
                    plan.name.as_str(),
                    *take_ref,
                ),
                _ => vstd::pervasive::unreached(),
            }
        },
        RuleKind::TextMut => char_ptr_mut_text(plan.name.as_str()),
        RuleKind::Passthrough => String::new(),
    }
}

/// Renders one direct pointer-taking statement.
fn render_ptr_direct(name: &str, mutable: bool, via_conv: bool) -> (r: String)
    ensures
        r@ == ptr_direct_text_spec(name@, mutable, via_conv),
{
    let mut out = String::from_str("    let ");
    out.append(name);
    out.append(" = ");
    out.append(name);
    if via_conv && mutable {
        out.append(".as_mut().as_mut_ptr();\n");
    } else if via_conv {
        out.append(".as_ref().as_ptr();\n");
    } else if mutable {
        out.append(".as_mut_ptr();\n");
    } else {
        out.append(".as_ptr();\n");
    }
    out
}

/// Renders the wrapper-facing parameter list from position `i` on.
fn join_wrapper_params(
    plans: &Vec<ParameterPlan>,
    i: usize,
    Ghost(dps): Ghost<Seq<DeclaredParameter>>,
    Ghost(enabled): Ghost<bool>,
) -> (r: String)
    requires
        plans@.len() == dps.len(),
        forall|k: int| 0 <= k < dps.len() ==> param_plan_matches(
            dps[k],
            enabled,
            #[trigger] plans@[k],
        ),
    ensures
        r@ == wrapper_params_from_spec(dps, enabled, i as int),
    decreases plans@.len() - i,
{
    if i >= plans.len() {
        return String::new();
    }
    let mut out = plans[i].name.clone();
    out.append(": ");
    out.append(plans[i].wrapper_ty.as_str());
    if i + 1 < plans.len() {
        out.append(", ");
        let rest = join_wrapper_params(plans, i + 1, Ghost(dps), Ghost(enabled));
        out.append(rest.as_str());
    }
    out
}

/// Renders the raw parameter list from position `i` on.
fn join_raw_params(
    plans: &Vec<ParameterPlan>,
    i: usize,
    Ghost(dps): Ghost<Seq<DeclaredParameter>>,
    Ghost(enabled): Ghost<bool>,
) -> (r: String)
    requires
        plans@.len() == dps.len(),
        forall|k: int| 0 <= k < dps.len() ==> param_plan_matches(
            dps[k],
            enabled,
            #[trigger] plans@[k],
        ),
    ensures
        r@ == raw_params_from_spec(dps, enabled, i as int),
    decreases plans@.len() - i,
{
    if i >= plans.len() {
        return String::new();
    }
    let mut out = plans[i].name.clone();
    out.append(": ");
    let rt = render_raw_text(&plans[i].raw, Ghost(dps[i as int].ty), Ghost(enabled));
    out.append(rt.as_str());
    if i + 1 < plans.len() {
        out.append(", ");
        let rest = join_raw_params(plans, i + 1, Ghost(dps), Ghost(enabled));
        out.append(rest.as_str());
    }
    out
}

/// Renders the call-site identifier list from position `i` on.
fn join_call_idents(
    plans: &Vec<ParameterPlan>,
    i: usize,
    Ghost(dps): Ghost<Seq<DeclaredParameter>>,
    Ghost(enabled): Ghost<bool>,
) -> (r: String)
    requires
        plans@.len() == dps.len(),
        forall|k: int| 0 <= k < dps.len() ==> param_plan_matches(
            dps[k],
            enabled,
            #[trigger] plans@[k],
        ),
    ensures
        r@ == call_idents_from_spec(dps, i as int),
    decreases plans@.len() - i,
{
    if i >= plans.len() {
        return String::new();
    }
    let mut out = plans[i].name.clone();
    if i + 1 < plans.len() {
        out.append(", ");
        let rest = join_call_idents(plans, i + 1, Ghost(dps), Ghost(enabled));
        out.append(rest.as_str());
    }
    out
}

/// Renders the conversion statements of all parameters from position `i`
/// on.
fn join_convs(
    plans: &Vec<ParameterPlan>,
    i: usize,
    Ghost(dps): Ghost<Seq<DeclaredParameter>>,
    Ghost(enabled): Ghost<bool>,
) -> (r: String)
    requires
        plans@.len() == dps.len(),
        forall|k: int| 0 <= k < dps.len() ==> param_plan_matches(
            dps[k],
            enabled,
            #[trigger] plans@[k],
        ),
    ensures
        r@ == convs_from_spec(dps, enabled, i as int),
    decreases plans@.len() - i,
{
    if i >= plans.len() {
        return String::new();
    }
    let mut out = render_param_conv(&plans[i], Ghost(dps[i as int]), Ghost(enabled));
    let rest = join_convs(plans, i + 1, Ghost(dps), Ghost(enabled));
    out.append(rest.as_str());
    out
}


/// Renders the foreign-declaration block of one plan.
fn render_extern_block(
    plan: &FunctionPlan,
    Ghost(f): Ghost<DeclaredFunction>,
    Ghost(fc): Ghost<EffectiveConfig>,
) -> (r: String)
    requires
        function_plan_matches(f, fc, *plan),
    ensures
        r@ == extern_block_text_spec(f, cfg_view(fc)),
{
    let ghost enabled = convert_enabled_spec(fc.arg_convert@);
    let mut out = String::from_str("#[link(name = \"");
    out.append(plan.library_name.as_str());
    match &plan.link_kind {
        Some(k) => {
            out.append("\", kind = \"");
            out.append(k.as_str());
        },
        None => {},
    }
    out.append("\")]\nunsafe extern \"stdcall\" {\n    fn ");
    out.append(plan.extern_name.as_str());
    out.append("(");
    let raw_join = join_raw_params(&plan.params, 0, Ghost(f.params@), Ghost(enabled));
    out.append(raw_join.as_str());
    out.append(") -> ");
    out.append(plan.return_ty.as_str());
    out.append(";\n}\n");
    out
}

/// Renders the failure arm of a result-wrapped wrapper.
fn render_err_arm(plan: &FunctionPlan, Ghost(f): Ghost<DeclaredFunction>) -> (r: String)
    requires
        plan.error_variant == crate::plan::error_variant_spec(f),
        plan.wrapper_name@ == wrapper_name_spec(f),
    ensures
        r@ == err_arm_text_spec(f),
{
    match plan.error_variant {
        ErrorVariant::Initialize => "        return Err(DxLibError::InitializeError);\n".to_owned(),
        ErrorVariant::Finalize => "        return Err(DxLibError::FinalizeError);\n".to_owned(),
        ErrorVariant::Other => {
            let mut e = String::from_str(
                "        return Err(DxLibError::Other(format!(\"Error in {}\", \"",
            );
            e.append(plan.wrapper_name.as_str());
            e.append("\")));\n");
            e
        },
    }
}

/// Renders the wrapper function of one plan.
#[verifier::rlimit(60)]
fn render_wrapper_fn(
    plan: &FunctionPlan,
    Ghost(f): Ghost<DeclaredFunction>,
    Ghost(fc): Ghost<EffectiveConfig>,
) -> (r: String)
    requires
        function_plan_matches(f, fc, *plan),
    ensures
        r@ == wrapper_fn_text_spec(f, cfg_view(fc)),
{
    let ghost enabled = convert_enabled_spec(fc.arg_convert@);
    let mut out = String::from_str("pub fn ");
    out.append(plan.wrapper_name.as_str());
    out.append("(");
    let wrap_join = join_wrapper_params(&plan.params, 0, Ghost(f.params@), Ghost(enabled));
    out.append(wrap_join.as_str());
    if plan.as_result {
        out.append(") -> Result<");
        out.append(plan.return_ty.as_str());
        out.append(", DxLibError> {\n");
    } else {
        out.append(") -> ");
        out.append(plan.return_ty.as_str());
        out.append(" {\n");
    }
    let convs = join_convs(&plan.params, 0, Ghost(f.params@), Ghost(enabled));
    out.append(convs.as_str());
    out.append("    let result: ");
    out.append(plan.return_ty.as_str());
    out.append(" = unsafe { ");
    out.append(plan.extern_name.as_str());
    out.append("(");
    let calls = join_call_idents(&plan.params, 0, Ghost(f.params@), Ghost(enabled));
    out.append(calls.as_str());
    out.append(") };\n    if ");
    out.append(plan.error_condition.as_str());
    if plan.as_result {
        out.append(" {\n");
        let err_arm = render_err_arm(plan, Ghost(f));
        out.append(err_arm.as_str());
        out.append("    } else {\n        return Ok(result);\n    }\n}\n");
    } else {
        out.append(" {\n        return -1;\n    } else {\n        return result;\n    }\n}\n");
    }
    out
}

/// Emits the declaration block and wrapper of one declared function under
/// its configuration snapshot.
pub fn emit_function(f: &DeclaredFunction, fc: &EffectiveConfig) -> (r: Result<String, GenError>)
    ensures
        f.ret is None ==> (r matches Err(e) && e matches GenError::MissingReturnType(t) && t@
            == f.name@),
        (f.ret is Some && first_param_err_from_spec(
            f.params@,
            convert_enabled_spec(fc.arg_convert@),
            0,
        ) matches Some(pay)) ==> (r matches Err(e) && e matches GenError::InvalidExpression(t)
            && t@ == first_param_err_from_spec(
                f.params@,
                convert_enabled_spec(fc.arg_convert@),
                0,
            )->Some_0),
        f.ret is Some && first_param_err_from_spec(
            f.params@,
            convert_enabled_spec(fc.arg_convert@),
            0,
        ) is None ==> (r matches Ok(s) && s@ == function_text_spec(*f, cfg_view(*fc))),
{
    let plan = match plan_function(f, fc) {
        Ok(p) => p,
        Err(e) => {
            return Err(e);
        },
    };
    let mut out = render_extern_block(&plan, Ghost(*f), Ghost(*fc));
    let wrapper = render_wrapper_fn(&plan, Ghost(*f), Ghost(*fc));
    out.append(wrapper.as_str());
    Ok(out)
}

proof fn lemma_first_fn_err_from(
    fns: Seq<DeclaredFunction>,
    sc: Seq<char>,
    j: int,
    i: int,
)
    requires
        0 <= j <= i < fns.len(),
        forall|k: int| j <= k < i ==> fn_err_spec(#[trigger] fns[k], sc) is None,
        fn_err_spec(fns[i], sc) is Some,
    ensures
        first_fn_err_from_spec(fns, sc, j) == fn_err_spec(fns[i], sc),
    decreases i - j,
{
    if j < i {
        lemma_first_fn_err_from(fns, sc, j + 1, i);
    }
}

proof fn lemma_no_fn_err_from(fns: Seq<DeclaredFunction>, sc: Seq<char>, j: int)
    requires
        0 <= j <= fns.len(),
        forall|k: int| j <= k < fns.len() ==> fn_err_spec(#[trigger] fns[k], sc) is None,
    ensures
        first_fn_err_from_spec(fns, sc, j) is None,
    decreases fns.len() - j,
{
    if j < fns.len() {
        lemma_no_fn_err_from(fns, sc, j + 1);
    }
}

/// Generates the emitted unit of one configuration scope: the common
/// imports, then, per declared function, its foreign-declaration block and
/// its wrapper, in declaration order. Name-prefix overrides persist past
/// the function that declared them, a carried-over behavior of the
/// configuration surface that the tests pin down.
pub fn generate_cffi(config_attrs: &Vec<Annotation>, fns: &Vec<DeclaredFunction>) -> (r: Result<
    String,
    GenError,
>)
    ensures
        scope_err_spec(config_attrs@, fns@) matches Some(es) ==> (r matches Err(e)
            && gen_error_matches(e, es)),
        scope_err_spec(config_attrs@, fns@) is None ==> (r matches Ok(s) && s@ == scope_text_spec(
            config_attrs@,
            fns@,
        )),
{
    let scope = match resolve_scope_config(config_attrs) {
        Ok(c) => c,
        Err(e) => {
            return Err(e);
        },
    };
    proof {
        lemma_scope_cfg_view(config_attrs@, scope);
    }
    let ghost sv = scope_cfg_v_spec(config_attrs@);
    let mut cur = scope;
    let mut out = String::from_str("use std::ffi::CString;\nuse std::os::raw::c_char;\n");
    let n = fns.len();
    let mut i: usize = 0;
    while i < n
        invariant
            n == fns@.len(),
            i <= n,
            sv == scope_cfg_v_spec(config_attrs@),
            str_value_from_spec(config_attrs@, "library_name"@, 0) is Some,
            arg_convert_of_spec(config_attrs@) is Some,
            cfg_view(cur).library_name == sv.library_name,
            cfg_view(cur).link_kind == sv.link_kind,
            cfg_view(cur).as_result == sv.as_result,
            cfg_view(cur).error_condition == sv.error_condition,
            cfg_view(cur).arg_convert == sv.arg_convert,
            scope_text_spec(config_attrs@, fns@) == out@ + fns_text_from_spec(
                fns@,
                cfg_view(cur),
                i as int,
            ),
            forall|k: int| 0 <= k < i ==> fn_err_spec(#[trigger] fns@[k], sv.arg_convert) is None,
        decreases n - i,
    {
        let f = &fns[i];
        match &f.ret {
            None => {
                proof {
                    lemma_first_fn_err_from(fns@, sv.arg_convert, 0, i as int);
                }
                return Err(GenError::MissingReturnType(f.name.clone()));
            },
            Some(_) => {},
        }
        let ghost cur0 = cur;
        let fc = match resolve_function_config(&cur, &f.attrs) {
            Ok(c) => c,
            Err(e) => {
                proof {
                    lemma_first_fn_err_from(fns@, sv.arg_convert, 0, i as int);
                }
                return Err(e);
            },
        };
        proof {
            lemma_fn_cfg_view(cur0, f.attrs@, fc);
        }
        cur.top_prefix = fc.top_prefix.clone();
        cur.down_prefix = fc.down_prefix.clone();
        proof {
            assert(cfg_view(cur) =~= carry_spec(cfg_view(cur0), cfg_view(fc)));
        }
        let text = match emit_function(f, &fc) {
            Ok(s) => s,
            Err(e) => {
                proof {
                    assert(cfg_view(fc).arg_convert == fn_cfg_v_spec(cfg_view(cur0), f.attrs@).arg_convert);
                    lemma_first_fn_err_from(fns@, sv.arg_convert, 0, i as int);
                }
                return Err(e);
            },
        };
        let ghost old_out = out@;
        out.append(text.as_str());
        proof {
            assert(fns_text_from_spec(fns@, cfg_view(cur0), i as int) == function_text_spec(
                fns@[i as int],
                fn_cfg_v_spec(cfg_view(cur0), fns@[i as int].attrs@),
            ) + fns_text_from_spec(fns@, cfg_view(cur), i + 1));
            assert(cfg_view(fc) == fn_cfg_v_spec(cfg_view(cur0), fns@[i as int].attrs@));
            assert((old_out + (text@ + fns_text_from_spec(fns@, cfg_view(cur), i + 1))) =~= (
            old_out + text@) + fns_text_from_spec(fns@, cfg_view(cur), i + 1));
        }
        i += 1;
    }
    proof {
        lemma_no_fn_err_from(fns@, sv.arg_convert, 0);
        assert(out@ + fns_text_from_spec(fns@, cfg_view(cur), n as int) =~= out@);
    }
    Ok(out)
}

} // verus!

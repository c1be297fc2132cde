//! The attribute resolver: given an ordered list of free-form annotations
//! and a target key, the first matching value wins; later duplicates are
//! ignored, never merged.
use vstd::prelude::*;

use crate::cffi_error::GenError;
use crate::lexcheck::{lex_check, lexes_ok};
use crate::model::{AnnValue, Annotation};
use crate::text::str_eq;

verus! {

/// Whether some annotation from position `i` on carries `name`, in any
/// form.
pub open spec fn has_ann_from_spec(attrs: Seq<Annotation>, name: Seq<char>, i: int) -> bool
    decreases attrs.len() - i,
{
    if 0 <= i < attrs.len() {
        attrs[i].name@ == name || has_ann_from_spec(attrs, name, i + 1)
    } else {
        false
    }
}

/// The payload of the first annotation from position `i` on that carries
/// `name` with a string payload. Annotations of the same name in another
/// form are passed over.
pub open spec fn str_value_from_spec(attrs: Seq<Annotation>, name: Seq<char>, i: int) -> Option<
    Seq<char>,
>
    decreases attrs.len() - i,
{
    if 0 <= i < attrs.len() {
        if attrs[i].name@ == name && attrs[i].value is Str {
            Some(attrs[i].value->Str_0@)
        } else {
            str_value_from_spec(attrs, name, i + 1)
        }
    } else {
        None
    }
}

/// The payload of the first annotation from position `i` on that carries
/// `name` with a bare-identifier payload.
pub open spec fn ident_value_from_spec(attrs: Seq<Annotation>, name: Seq<char>, i: int) -> Option<
    Seq<char>,
>
    decreases attrs.len() - i,
{
    if 0 <= i < attrs.len() {
        if attrs[i].name@ == name && attrs[i].value is Ident {
            Some(attrs[i].value->Ident_0@)
        } else {
            ident_value_from_spec(attrs, name, i + 1)
        }
    } else {
        None
    }
}

/// The resolved argument-conversion mode: a string payload wins, then a
/// bare-identifier payload, then a bare flag, which stands for its own
/// name.
pub open spec fn arg_convert_of_spec(attrs: Seq<Annotation>) -> Option<Seq<char>> {
    if str_value_from_spec(attrs, "arg_convert"@, 0) is Some {
        str_value_from_spec(attrs, "arg_convert"@, 0)
    } else if ident_value_from_spec(attrs, "arg_convert"@, 0) is Some {
        ident_value_from_spec(attrs, "arg_convert"@, 0)
    } else if has_ann_from_spec(attrs, "arg_convert"@, 0) {
        Some("arg_convert"@)
    } else {
        None
    }
}

/// The raw payload of the first default-value annotation.
pub open spec fn option_default_of_spec(attrs: Seq<Annotation>) -> Option<Seq<char>> {
    str_value_from_spec(attrs, "option_default"@, 0)
}

/// The decoded default-value expression: the fixed vocabulary words map to
/// their constants, anything else must lex and passes through verbatim.
pub open spec fn decoded_default_spec(payload: Seq<char>) -> Seq<char> {
    if payload == "null"@ {
        "std::ptr::null()"@
    } else if payload == "null_mut"@ {
        "std::ptr::null_mut()"@
    } else if payload == "default"@ {
        "Default::default()"@
    } else {
        payload
    }
}

/// The annotation lookups, kept together on one carrier type.
pub struct CFFIAttributeAnalyzer;

impl CFFIAttributeAnalyzer {
    /// Whether any annotation carries `ident`, in any form.
    pub fn has_path_attr(attrs: &Vec<Annotation>, ident: &str) -> (r: bool)
        ensures
            r == has_ann_from_spec(attrs@, ident@, 0),
    {
        Self::has_ann_from(attrs, ident, 0)
    }

    /// Whether some annotation from position `i` on carries `ident`.
    fn has_ann_from(attrs: &Vec<Annotation>, ident: &str, i: usize) -> (r: bool)
        ensures
            r == has_ann_from_spec(attrs@, ident@, i as int),
        decreases attrs@.len() - i,
    {
        if i >= attrs.len() {
            return false;
        }
        if str_eq(attrs[i].name.as_str(), ident) {
            return true;
        }
        Self::has_ann_from(attrs, ident, i + 1)
    }

    /// The string payload of the first annotation carrying `ident`.
    pub fn get_name_value_attr(attrs: &Vec<Annotation>, ident: &str) -> (r: Option<String>)
        ensures
            r is Some <==> str_value_from_spec(attrs@, ident@, 0) is Some,
            r matches Some(s) ==> str_value_from_spec(attrs@, ident@, 0) == Some(s@),
    {
        Self::str_value_from(attrs, ident, 0)
    }

    /// The string payload of the first match from position `i` on.
    fn str_value_from(attrs: &Vec<Annotation>, ident: &str, i: usize) -> (r: Option<String>)
        ensures
            r is Some <==> str_value_from_spec(attrs@, ident@, i as int) is Some,
            r matches Some(s) ==> str_value_from_spec(attrs@, ident@, i as int) == Some(s@),
        decreases attrs@.len() - i,
    {
        if i >= attrs.len() {
            return None;
        }
        if str_eq(attrs[i].name.as_str(), ident) {
            if let AnnValue::Str(s) = &attrs[i].value {
                return Some(s.clone());
            }
        }
        Self::str_value_from(attrs, ident, i + 1)
    }

    /// The bare-identifier payload of the first match from position `i` on.
    fn ident_value_from(attrs: &Vec<Annotation>, ident: &str, i: usize) -> (r: Option<String>)
        ensures
            r is Some <==> ident_value_from_spec(attrs@, ident@, i as int) is Some,
            r matches Some(s) ==> ident_value_from_spec(attrs@, ident@, i as int) == Some(s@),
        decreases attrs@.len() - i,
    {
        if i >= attrs.len() {
            return None;
        }
        if str_eq(attrs[i].name.as_str(), ident) {
            if let AnnValue::Ident(s) = &attrs[i].value {
                return Some(s.clone());
            }
        }
        Self::ident_value_from(attrs, ident, i + 1)
    }

    /// The name of the first annotation carrying `ident`, in any form.
    pub fn extract_path_attr(attrs: &Vec<Annotation>, ident: &str) -> (r: Option<String>)
        ensures
            r is Some <==> has_ann_from_spec(attrs@, ident@, 0),
            r matches Some(s) ==> s@ == ident@,
    {
        if Self::has_ann_from(attrs, ident, 0) {
            Some(ident.to_owned())
        } else {
            None
        }
    }

    /// The resolved argument-conversion mode; see [`arg_convert_of_spec`].
    pub fn extract_arg_convert_attr(attrs: &Vec<Annotation>) -> (r: Option<String>)
        ensures
            r is Some <==> arg_convert_of_spec(attrs@) is Some,
            r matches Some(s) ==> arg_convert_of_spec(attrs@) == Some(s@),
    {
        if let Some(s) = Self::str_value_from(attrs, "arg_convert", 0) {
            return Some(s);
        }
        if let Some(s) = Self::ident_value_from(attrs, "arg_convert", 0) {
            return Some(s);
        }
        Self::extract_path_attr(attrs, "arg_convert")
    }

    /// Whether the annotations ask for a success/failure-wrapped return, as
    /// a bare flag or in key-value form.
    pub fn is_as_result_attr(attrs: &Vec<Annotation>) -> (r: bool)
        ensures
            r == has_ann_from_spec(attrs@, "as_result"@, 0),
    {
        Self::has_ann_from(attrs, "as_result", 0)
    }

    /// The configured top name prefix, if any.
    pub fn func_name_top_prefix_attr(attrs: &Vec<Annotation>) -> (r: Option<String>)
        ensures
            r is Some <==> str_value_from_spec(attrs@, "func_name_top_prefix"@, 0) is Some,
            r matches Some(s) ==> str_value_from_spec(attrs@, "func_name_top_prefix"@, 0) == Some(
                s@,
            ),
    {
        Self::str_value_from(attrs, "func_name_top_prefix", 0)
    }

    /// The configured down name prefix, if any.
    pub fn func_name_down_prefix_attr(attrs: &Vec<Annotation>) -> (r: Option<String>)
        ensures
            r is Some <==> str_value_from_spec(attrs@, "func_name_down_prefix"@, 0) is Some,
            r matches Some(s) ==> str_value_from_spec(attrs@, "func_name_down_prefix"@, 0) == Some(
                s@,
            ),
    {
        Self::str_value_from(attrs, "func_name_down_prefix", 0)
    }

    /// The configured library name, if any.
    pub fn extract_library_name_attr(attrs: &Vec<Annotation>) -> (r: Option<String>)
        ensures
            r is Some <==> str_value_from_spec(attrs@, "library_name"@, 0) is Some,
            r matches Some(s) ==> str_value_from_spec(attrs@, "library_name"@, 0) == Some(s@),
    {
        Self::str_value_from(attrs, "library_name", 0)
    }

    /// The configured link kind, if any.
    pub fn extract_link_type_attr(attrs: &Vec<Annotation>) -> (r: Option<String>)
        ensures
            r is Some <==> str_value_from_spec(attrs@, "link_type"@, 0) is Some,
            r matches Some(s) ==> str_value_from_spec(attrs@, "link_type"@, 0) == Some(s@),
    {
        Self::str_value_from(attrs, "link_type", 0)
    }

    /// The function-level error-condition expression, if any.
    pub fn extract_error_condition_attr(attrs: &Vec<Annotation>) -> (r: Option<String>)
        ensures
            r is Some <==> str_value_from_spec(attrs@, "error_condition"@, 0) is Some,
            r matches Some(s) ==> str_value_from_spec(attrs@, "error_condition"@, 0) == Some(s@),
    {
        Self::str_value_from(attrs, "error_condition", 0)
    }

    /// The configured wrapper-name alias, if any.
    pub fn extract_func_alias_attr(attrs: &Vec<Annotation>) -> (r: Option<String>)
        ensures
            r is Some <==> str_value_from_spec(attrs@, "alias"@, 0) is Some,
            r matches Some(s) ==> str_value_from_spec(attrs@, "alias"@, 0) == Some(s@),
    {
        Self::str_value_from(attrs, "alias", 0)
    }

    /// The decoded default-value expression of an optional parameter:
    /// absent yields no expression, the fixed vocabulary words map to
    /// their constants, and any other payload must lex as an expression or
    /// the generation fails.
    pub fn extract_option_default_expr_attr(attrs: &Vec<Annotation>) -> (r: Result<
        Option<String>,
        GenError,
    >)
        ensures
            option_default_of_spec(attrs@) is None ==> (r matches Ok(o) && o is None),
            option_default_of_spec(attrs@) matches Some(p) ==> {
                if p == "null"@ || p == "null_mut"@ || p == "default"@ || lexes_ok(p) {
                    r matches Ok(o) && o matches Some(s) && s@ == decoded_default_spec(p)
                } else {
                    r matches Err(e) && e matches GenError::InvalidExpression(t) && t@ == p
                }
            },
    {
        let payload = Self::str_value_from(attrs, "option_default", 0);
        match payload {
            None => Ok(None),
            Some(p) => {
                if str_eq(p.as_str(), "null") {
                    Ok(Some("std::ptr::null()".to_owned()))
                } else if str_eq(p.as_str(), "null_mut") {
                    Ok(Some("std::ptr::null_mut()".to_owned()))
                } else if str_eq(p.as_str(), "default") {
                    Ok(Some("Default::default()".to_owned()))
                } else if lex_check(p.as_str()) {
                    Ok(Some(p))
                } else {
                    Err(GenError::InvalidExpression(p))
                }
            },
        }
    }
}

} // verus!

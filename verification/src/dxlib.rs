//! The example library scope: the declarations of a small drawing
//! library's entry points, as the generator consumes them. The emitted
//! wrappers report [`crate::cffi_error::DxLibError`].
use vstd::prelude::*;

use crate::model::{Annotation, DeclaredFunction, DeclaredParameter, TypeShape};

verus! {

/// One declared function of the example scope: a name, parameters and an
/// `i32` return.
fn decl_fn(name: &str, attrs: Vec<Annotation>, params: Vec<DeclaredParameter>) -> (r:
    DeclaredFunction)
    ensures
        r.name@ == name@,
        r.attrs == attrs,
        r.params == params,
        r.ret matches Some(t) && t matches TypeShape::Path { segments } && segments@.len() == 1
            && segments@[0].ident@ == "i32"@ && segments@[0].args@.len() == 0,
{
    DeclaredFunction { name: name.to_owned(), attrs, params, ret: Some(TypeShape::simple("i32")) }
}

/// The example scope's configuration annotations and function
/// declarations: a named dynamic library, result-wrapped returns, default
/// argument conversion, and a top name prefix for the foreign symbols.
pub fn dxlib_scope() -> (r: (Vec<Annotation>, Vec<DeclaredFunction>))
    ensures
        r.0@.len() == 5,
        r.1@.len() == 9,
        r.1@[0].name@ == "DxLib_Init"@,
        r.1@[1].name@ == "DxLib_End"@,
        r.1@[2].name@ == "WaitKey"@,
        r.1@[3].name@ == "GetColor"@,
        r.1@[4].name@ == "ChangeWindowMode"@,
        r.1@[5].name@ == "SetUseCharCodeFormat"@,
        r.1@[6].name@ == "DrawString"@,
        r.1@[7].name@ == "TestFunc"@,
        r.1@[8].name@ == "TestFunc2"@,
{
    let mut config: Vec<Annotation> = Vec::new();
    config.push(Annotation::with_str("library_name", "DxLib_x64"));
    config.push(Annotation::with_str("link_type", "dylib"));
    config.push(Annotation::flag("as_result"));
    config.push(Annotation::with_ident("arg_convert", "default"));
    config.push(Annotation::with_str("func_name_top_prefix", "dx_"));

    let mut errmax: Vec<Annotation> = Vec::new();
    errmax.push(Annotation::with_str("error_condition", "result == i32::MAX"));
    let mut errmax2: Vec<Annotation> = Vec::new();
    errmax2.push(Annotation::with_str("error_condition", "result == i32::MAX"));

    let mut color_params: Vec<DeclaredParameter> = Vec::new();
    color_params.push(DeclaredParameter::plain("red", TypeShape::simple("i32")));
    color_params.push(DeclaredParameter::plain("green", TypeShape::simple("i32")));
    color_params.push(DeclaredParameter::plain("blue", TypeShape::simple("i32")));

    let mut mode_params: Vec<DeclaredParameter> = Vec::new();
    mode_params.push(DeclaredParameter::plain("mode", TypeShape::simple("i32")));

    let mut code_params: Vec<DeclaredParameter> = Vec::new();
    code_params.push(DeclaredParameter::plain("char_code_format", TypeShape::simple("i32")));

    let mut draw_params: Vec<DeclaredParameter> = Vec::new();
    draw_params.push(DeclaredParameter::plain("x", TypeShape::simple("i32")));
    draw_params.push(DeclaredParameter::plain("y", TypeShape::simple("i32")));
    draw_params.push(
        DeclaredParameter::plain(
            "string",
            TypeShape::reference(false, TypeShape::simple("String")),
        ),
    );
    draw_params.push(DeclaredParameter::plain("color", TypeShape::simple("i32")));

    let mut test_params: Vec<DeclaredParameter> = Vec::new();
    test_params.push(
        DeclaredParameter::plain("p", TypeShape::reference(false, TypeShape::simple("String"))),
    );

    let mut test2_params: Vec<DeclaredParameter> = Vec::new();
    test2_params.push(
        DeclaredParameter::plain("s", TypeShape::reference(false, TypeShape::simple("str"))),
    );

    let mut fns: Vec<DeclaredFunction> = Vec::new();
    fns.push(decl_fn("DxLib_Init", Vec::new(), Vec::new()));
    fns.push(decl_fn("DxLib_End", Vec::new(), Vec::new()));
    fns.push(decl_fn("WaitKey", errmax, Vec::new()));
    fns.push(decl_fn("GetColor", errmax2, color_params));
    fns.push(decl_fn("ChangeWindowMode", Vec::new(), mode_params));
    fns.push(decl_fn("SetUseCharCodeFormat", Vec::new(), code_params));
    fns.push(decl_fn("DrawString", Vec::new(), draw_params));
    fns.push(decl_fn("TestFunc", Vec::new(), test_params));
    fns.push(decl_fn("TestFunc2", Vec::new(), test2_params));
    (config, fns)
}

} // verus!

use cffi_gen::cffi_error::GenError;
use cffi_gen::dxlib::dxlib_scope;
use cffi_gen::emit::generate_cffi;
use cffi_gen::model::{Annotation, DeclaredFunction, DeclaredParameter, PathSeg, TraitBound, TypeShape};

fn scope_config() -> Vec<Annotation> {
    vec![
        Annotation::with_str("library_name", "Lib"),
        Annotation::with_ident("arg_convert", "default"),
        Annotation::flag("as_result"),
    ]
}

fn int_fn(name: &str, attrs: Vec<Annotation>, params: Vec<DeclaredParameter>) -> DeclaredFunction {
    DeclaredFunction {
        name: name.to_owned(),
        attrs,
        params,
        ret: Some(TypeShape::simple("i32")),
    }
}

#[test]
fn test_dxlib_1() {
    let (config, fns) = dxlib_scope();
    let out = generate_cffi(&config, &fns).unwrap();
    // The foreign declarations carry the configured top prefix and link kind.
    assert!(out.contains("#[link(name = \"DxLib_x64\", kind = \"dylib\")]"));
    assert!(out.contains("fn dx_DxLib_Init() -> i32;"));
    assert!(out.contains("fn dx_WaitKey() -> i32;"));
    assert!(out.contains("fn dx_GetColor(red: i32, green: i32, blue: i32) -> i32;"));
    assert!(out.contains("fn dx_DrawString(x: i32, y: i32, string: *const c_char, color: i32) -> i32;"));
    // Every wrapper is result-wrapped under the scope flag.
    assert!(out.contains("pub fn DxLib_Init() -> Result<i32, DxLibError>"));
    assert!(out.contains("pub fn SetUseCharCodeFormat(char_code_format: i32) -> Result<i32, DxLibError>"));
    assert!(out.contains("pub fn ChangeWindowMode(mode: i32) -> Result<i32, DxLibError>"));
    // The lifecycle pair reports its dedicated variants; WaitKey keeps its
    // overridden predicate.
    assert!(out.contains("return Err(DxLibError::InitializeError);"));
    assert!(out.contains("return Err(DxLibError::FinalizeError);"));
    assert!(out.contains("if result == i32::MAX"));
    // The borrowed-string argument goes through an owned temporary.
    assert!(out.contains("let __string_holder = ToGeneralRawType::to_general_type_ref(string);"));
}

#[test]
fn exact_text_single_function_scope() {
    let config = scope_config();
    let fns = vec![int_fn(
        "ChangeWindowMode",
        Vec::new(),
        vec![DeclaredParameter::plain("mode", TypeShape::simple("i32"))],
    )];
    let out = generate_cffi(&config, &fns).unwrap();
    let mut expected = String::new();
    expected.push_str("use std::ffi::CString;\nuse std::os::raw::c_char;\n");
    expected.push_str("#[link(name = \"Lib\")]\nunsafe extern \"stdcall\" {\n");
    expected.push_str("    fn ChangeWindowMode(mode: i32) -> i32;\n}\n");
    expected.push_str("pub fn ChangeWindowMode(mode: i32) -> Result<i32, DxLibError> {\n");
    expected.push_str("    let result: i32 = unsafe { ChangeWindowMode(mode) };\n");
    expected.push_str("    if result as i32 == -1i32 {\n");
    expected.push_str("        return Err(DxLibError::Other(format!(\"Error in {}\", \"ChangeWindowMode\")));\n");
    expected.push_str("    } else {\n        return Ok(result);\n    }\n}\n");
    assert_eq!(out, expected);
}

#[test]
fn rerunning_the_generator_yields_identical_text() {
    let (config, fns) = dxlib_scope();
    let first = generate_cffi(&config, &fns).unwrap();
    let second = generate_cffi(&config, &fns).unwrap();
    assert_eq!(first, second);
}

#[test]
fn function_error_condition_overrides_scope_default() {
    let config = scope_config();
    let fns = vec![
        int_fn(
            "WaitKey",
            vec![Annotation::with_str("error_condition", "result == i32::MAX")],
            Vec::new(),
        ),
        int_fn("ChangeWindowMode", Vec::new(), vec![
            DeclaredParameter::plain("mode", TypeShape::simple("i32")),
        ]),
    ];
    let out = generate_cffi(&config, &fns).unwrap();
    let waitkey_at = out.find("pub fn WaitKey").unwrap();
    let change_at = out.find("pub fn ChangeWindowMode").unwrap();
    let waitkey_body = &out[waitkey_at..change_at];
    assert!(waitkey_body.contains("if result == i32::MAX {"));
    assert!(!waitkey_body.contains("-1i32"));
    assert!(out[change_at..].contains("if result as i32 == -1i32 {"));
}

#[test]
fn scope_as_result_flag_wraps_unannotated_function() {
    let config = scope_config();
    let fns = vec![int_fn("ChangeWindowMode", Vec::new(), vec![
        DeclaredParameter::plain("mode", TypeShape::simple("i32")),
    ])];
    let out = generate_cffi(&config, &fns).unwrap();
    assert!(out.contains("pub fn ChangeWindowMode(mode: i32) -> Result<i32, DxLibError> {"));
    assert!(!out.contains("pub fn ChangeWindowMode(mode: i32) -> i32 {"));
}

#[test]
fn str_parameter_becomes_const_byte_pointer_with_holder() {
    let config = scope_config();
    let fns = vec![int_fn("TestFunc2", Vec::new(), vec![
        DeclaredParameter::plain("s", TypeShape::reference(false, TypeShape::simple("str"))),
    ])];
    let out = generate_cffi(&config, &fns).unwrap();
    // Raw side: a constant character pointer; wrapper side: `&str` unchanged.
    assert!(out.contains("fn TestFunc2(s: *const c_char) -> i32;"));
    assert!(out.contains("pub fn TestFunc2(s: &str) -> Result<i32, DxLibError> {"));
    // The holder is bound strictly before the pointer is derived, ahead of
    // the call.
    let holder_at = out.find("let __s_holder = ToGeneralRawType::to_general_type_ref(&s);").unwrap();
    let ptr_at = out.find("let s: *const c_char = __s_ptr;").unwrap();
    let call_at = out.find("unsafe { TestFunc2(s) }").unwrap();
    assert!(holder_at < ptr_at);
    assert!(ptr_at < call_at);
}

#[test]
fn lifecycle_symbols_get_dedicated_variants() {
    let config = scope_config();
    let fns = vec![
        int_fn("DxLib_Init", Vec::new(), Vec::new()),
        int_fn("DxLib_End", Vec::new(), Vec::new()),
        int_fn("WaitKey", Vec::new(), Vec::new()),
    ];
    let out = generate_cffi(&config, &fns).unwrap();
    let init_at = out.find("pub fn DxLib_Init").unwrap();
    let end_at = out.find("pub fn DxLib_End").unwrap();
    let wait_at = out.find("pub fn WaitKey").unwrap();
    assert!(out[init_at..end_at].contains("return Err(DxLibError::InitializeError);"));
    assert!(out[end_at..wait_at].contains("return Err(DxLibError::FinalizeError);"));
    assert!(out[wait_at..].contains(
        "return Err(DxLibError::Other(format!(\"Error in {}\", \"WaitKey\")));"
    ));
}

#[test]
fn alias_renames_wrapper_but_not_foreign_symbol() {
    let config = scope_config();
    let fns = vec![int_fn(
        "DxLib_Init",
        vec![Annotation::with_str("alias", "dxlib_init")],
        Vec::new(),
    )];
    let out = generate_cffi(&config, &fns).unwrap();
    assert!(out.contains("fn DxLib_Init() -> i32;"));
    assert!(out.contains("pub fn dxlib_init() -> Result<i32, DxLibError> {"));
    // The dedicated variant keys on the wrapper name, which the alias changed.
    assert!(out.contains("return Err(DxLibError::Other(format!(\"Error in {}\", \"dxlib_init\")));"));
}

#[test]
fn function_prefix_override_wins_and_carries_over() {
    let config = scope_config();
    let fns = vec![
        int_fn(
            "First",
            vec![Annotation::with_str("func_name_top_prefix", "pre_")],
            Vec::new(),
        ),
        int_fn("Second", Vec::new(), Vec::new()),
    ];
    let out = generate_cffi(&config, &fns).unwrap();
    // The override applies to the function that declared it...
    assert!(out.contains("fn pre_First() -> i32;"));
    // ...and persists past it, a carried-over behavior of the surface.
    assert!(out.contains("fn pre_Second() -> i32;"));
}

#[test]
fn top_prefix_wins_over_down_prefix() {
    let mut config = scope_config();
    config.push(Annotation::with_str("func_name_top_prefix", "top_"));
    config.push(Annotation::with_str("func_name_down_prefix", "down_"));
    let fns = vec![int_fn("WaitKey", Vec::new(), Vec::new())];
    let out = generate_cffi(&config, &fns).unwrap();
    assert!(out.contains("fn top_WaitKey() -> i32;"));
    assert!(!out.contains("down_WaitKey"));
}

#[test]
fn raw_passthrough_collapses_failure_into_sentinel() {
    let config = vec![
        Annotation::with_str("library_name", "Lib"),
        Annotation::with_ident("arg_convert", "default"),
    ];
    let fns = vec![int_fn("WaitKey", Vec::new(), Vec::new())];
    let out = generate_cffi(&config, &fns).unwrap();
    assert!(out.contains("pub fn WaitKey() -> i32 {"));
    assert!(out.contains("        return -1;\n"));
    assert!(!out.contains("DxLibError"));
}

#[test]
fn missing_library_name_is_refused() {
    let config = vec![Annotation::with_ident("arg_convert", "default")];
    let fns: Vec<DeclaredFunction> = Vec::new();
    match generate_cffi(&config, &fns) {
        Err(GenError::MissingLibraryName) => {},
        _ => panic!("expected the missing library name to be refused"),
    }
}

#[test]
fn missing_arg_convert_is_refused() {
    let config = vec![Annotation::with_str("library_name", "Lib")];
    let fns: Vec<DeclaredFunction> = Vec::new();
    match generate_cffi(&config, &fns) {
        Err(GenError::MissingArgConvert) => {},
        _ => panic!("expected the missing conversion mode to be refused"),
    }
}

#[test]
fn missing_return_type_is_refused() {
    let config = scope_config();
    let fns = vec![DeclaredFunction {
        name: "NoRet".to_owned(),
        attrs: Vec::new(),
        params: Vec::new(),
        ret: None,
    }];
    match generate_cffi(&config, &fns) {
        Err(GenError::MissingReturnType(n)) => assert_eq!(n, "NoRet"),
        _ => panic!("expected the missing return type to be refused"),
    }
}

#[test]
fn malformed_error_condition_is_refused() {
    let config = scope_config();
    let fns = vec![int_fn(
        "WaitKey",
        vec![Annotation::with_str("error_condition", "result == (")],
        Vec::new(),
    )];
    match generate_cffi(&config, &fns) {
        Err(GenError::InvalidExpression(t)) => assert_eq!(t, "result == ("),
        _ => panic!("expected the malformed predicate to be refused"),
    }
}

#[test]
fn malformed_option_default_is_refused() {
    let config = scope_config();
    let mut attrs = Vec::new();
    attrs.push(Annotation::with_str("option_default", ") broken ("));
    let fns = vec![int_fn("TestFunc3", Vec::new(), vec![DeclaredParameter {
        name: "v".to_owned(),
        ty: TypeShape::generic1("Option", TypeShape::simple("i32")),
        attrs,
    }])];
    match generate_cffi(&config, &fns) {
        Err(GenError::InvalidExpression(t)) => assert_eq!(t, ") broken ("),
        _ => panic!("expected the malformed default payload to be refused"),
    }
}

#[test]
fn option_default_vocabulary_is_decoded() {
    let config = scope_config();
    let mut attrs = Vec::new();
    attrs.push(Annotation::with_str("option_default", "null"));
    let fns = vec![int_fn("TestFunc3", Vec::new(), vec![DeclaredParameter {
        name: "v".to_owned(),
        ty: TypeShape::generic1("Option", TypeShape::simple("i32")),
        attrs,
    }])];
    let out = generate_cffi(&config, &fns).unwrap();
    assert!(out.contains("pub fn TestFunc3(v: Option<i32>) -> Result<i32, DxLibError> {"));
    assert!(out.contains("let v = match v { Some(value) => value, None => std::ptr::null() };"));
    assert!(out.contains("fn TestFunc3(v: i32) -> i32;"));
}

#[test]
fn option_without_default_uses_zero_value_constant() {
    let config = scope_config();
    let fns = vec![int_fn("TestFunc3", Vec::new(), vec![DeclaredParameter::plain(
        "v",
        TypeShape::generic1("Option", TypeShape::simple("i32")),
    )])];
    let out = generate_cffi(&config, &fns).unwrap();
    assert!(out.contains("let v = match v { Some(value) => value, None => Default::default() };"));
}

#[test]
fn conversion_disabled_mode_passes_everything_through() {
    let config = vec![
        Annotation::with_str("library_name", "Lib"),
        Annotation::with_ident("arg_convert", "none"),
        Annotation::flag("as_result"),
    ];
    let fns = vec![int_fn("TestFunc2", Vec::new(), vec![
        DeclaredParameter::plain("s", TypeShape::reference(false, TypeShape::simple("str"))),
    ])];
    let out = generate_cffi(&config, &fns).unwrap();
    // With conversion off even a string slice crosses unchanged.
    assert!(out.contains("fn TestFunc2(s: &str) -> i32;"));
    assert!(!out.contains("__s_holder"));
}

#[test]
fn conversion_bound_and_text_emissions() {
    let config = scope_config();
    let as_ref_str = TypeShape::ImplTrait {
        bounds: vec![TraitBound {
            segments: vec![PathSeg {
                ident: "AsRef".to_owned(),
                args: vec![TypeShape::simple("str")],
            }],
        }],
    };
    let to_string = TypeShape::ImplTrait {
        bounds: vec![TraitBound {
            segments: vec![PathSeg { ident: "ToString".to_owned(), args: Vec::new() }],
        }],
    };
    let into_vec = TypeShape::ImplTrait {
        bounds: vec![TraitBound {
            segments: vec![PathSeg {
                ident: "Into".to_owned(),
                args: vec![TypeShape::generic1("Vec", TypeShape::simple("u8"))],
            }],
        }],
    };
    let fns = vec![
        int_fn("TakesBound", Vec::new(), vec![
            DeclaredParameter::plain("a", TypeShape::reference(false, as_ref_str)),
            DeclaredParameter::plain("b", to_string),
            DeclaredParameter::plain("c", into_vec),
        ]),
        int_fn("WritesBack", Vec::new(), vec![
            DeclaredParameter::plain("s", TypeShape::reference(true, TypeShape::simple("String"))),
            DeclaredParameter::plain("buf", TypeShape::reference(true, TypeShape::Slice {
                elem: Box::new(TypeShape::simple("u8")),
            })),
        ]),
    ];
    let out = generate_cffi(&config, &fns).unwrap();
    // The borrowed text bound keeps its generic surface and becomes a
    // read-only byte pointer backed by an owned temporary.
    assert!(out.contains(
        "fn TakesBound(a: *const ::std::os::raw::c_char, b: *const c_char, c: *const u8) -> i32;"
    ));
    assert!(out.contains("a: &impl AsRef<str>, b: impl ToString, c: impl Into<Vec<u8>>"));
    assert!(out.contains("let __a_holder = CStringHolder::new(a.as_ref());"));
    assert!(out.contains("let __b_holder = CStringHolder::new(b.to_string());"));
    assert!(out.contains("let c = c.as_ptr();"));
    // The mutable text value hands its buffer to a mutable pointer; the
    // mutable slice aliases the caller's buffer directly.
    assert!(out.contains("fn WritesBack(s: *mut c_char, buf: *mut u8) -> i32;"));
    assert!(out.contains("let __s_holder = ToGeneralRawType::to_general_type_mut(s);"));
    assert!(out.contains("RawPointer::Mutable { ptr, owner, .. }"));
    assert!(out.contains("let buf = buf.as_mut_ptr();"));
}

use cffi_gen::cffi_error::CFFIGeneralError;
use cffi_gen::cffi_error::DxLibError;
use cffi_gen::classifier::CFFIAnalyzer;
use cffi_gen::emit::generate_cffi;
use cffi_gen::model::DeclaredFunction;
use cffi_gen::model::{Annotation, DeclaredParameter, PathSeg, TraitBound, TypeShape};
use cffi_gen::plan::{plan_parameter, Ownership, RawParam, RuleKind};
use cffi_gen::attrs::CFFIAttributeAnalyzer;
use cffi_gen::cffi_error::GenError;

fn impl_bound(trait_name: &str, args: Vec<TypeShape>) -> TypeShape {
    TypeShape::ImplTrait {
        bounds: vec![TraitBound {
            segments: vec![PathSeg { ident: trait_name.to_owned(), args }],
        }],
    }
}

#[test]
fn reference_predicates_and_extractors() {
    let r = TypeShape::reference(false, TypeShape::simple("i32"));
    let m = TypeShape::reference(true, TypeShape::simple("i32"));
    assert!(CFFIAnalyzer::is_ref(&r));
    assert!(!CFFIAnalyzer::is_ref(&m));
    assert!(CFFIAnalyzer::is_mut(&m));
    assert!(!CFFIAnalyzer::is_mut(&r));
    assert!(CFFIAnalyzer::extract_ref(&r).is_some());
    assert!(CFFIAnalyzer::extract_ref(&m).is_none());
    assert!(CFFIAnalyzer::extract_mut(&m).is_some());
    assert!(CFFIAnalyzer::is_type_path(&TypeShape::simple("u8")));
    assert!(!CFFIAnalyzer::is_type_path(&r));
}

#[test]
fn structural_type_equality_ignores_nothing_but_lifetimes() {
    let a = TypeShape::generic1("Vec", TypeShape::simple("u8"));
    let b = TypeShape::generic1("Vec", TypeShape::simple("u8"));
    let c = TypeShape::generic1("Vec", TypeShape::simple("u16"));
    let d = TypeShape::simple("Vec");
    assert!(CFFIAnalyzer::type_eq(&a, &b));
    assert!(!CFFIAnalyzer::type_eq(&a, &c));
    assert!(!CFFIAnalyzer::type_eq(&a, &d));
    // Non-path types never compare equal, even to themselves.
    let r = TypeShape::reference(false, TypeShape::simple("i32"));
    let r2 = TypeShape::reference(false, TypeShape::simple("i32"));
    assert!(!CFFIAnalyzer::type_eq(&r, &r2));
}

#[test]
fn option_vec_array_and_slice_shapes() {
    let o = TypeShape::generic1("Option", TypeShape::simple("i32"));
    assert!(CFFIAnalyzer::is_option(&o).is_some());
    assert!(CFFIAnalyzer::is_option(&TypeShape::simple("i32")).is_none());

    let v = TypeShape::generic1("Vec", TypeShape::simple("u8"));
    assert!(CFFIAnalyzer::is_vec_type(&v));
    assert!(CFFIAnalyzer::is_mut_vec_type(&TypeShape::reference(true, TypeShape::generic1(
        "Vec",
        TypeShape::simple("u8"),
    ))));
    assert!(CFFIAnalyzer::is_ref_vec_type(&TypeShape::reference(false, TypeShape::generic1(
        "Vec",
        TypeShape::simple("u8"),
    )))
    .is_some());
    assert!(CFFIAnalyzer::is_mut_ref_vec_type(&v).is_none());

    let arr = TypeShape::Array {
        elem: Box::new(TypeShape::simple("i32")),
        len: "4".to_owned(),
    };
    assert!(CFFIAnalyzer::is_array(&arr));
    let (elem, len) = CFFIAnalyzer::extract_array(&arr).unwrap();
    assert!(CFFIAnalyzer::type_eq(elem, &TypeShape::simple("i32")));
    assert_eq!(len, "4");
    let marr = TypeShape::reference(true, arr);
    assert!(CFFIAnalyzer::is_mut_array(&marr));
    assert!(CFFIAnalyzer::extract_mut_array(&marr).is_some());

    let slice = TypeShape::reference(false, TypeShape::Slice {
        elem: Box::new(TypeShape::simple("u8")),
    });
    assert!(CFFIAnalyzer::is_slice(&slice));
    assert!(CFFIAnalyzer::extract_slice(&slice).is_some());
    let mslice = TypeShape::reference(true, TypeShape::Slice {
        elem: Box::new(TypeShape::simple("u8")),
    });
    assert!(CFFIAnalyzer::is_mut_slice(&mslice));
    assert!(CFFIAnalyzer::extract_mut_slice(&mslice).is_some());
}

#[test]
fn impl_bound_predicates() {
    let as_ref_str = impl_bound("AsRef", vec![TypeShape::simple("str")]);
    assert!(CFFIAnalyzer::is_impl(&as_ref_str));
    assert!(CFFIAnalyzer::is_impl_as_ref_type(&as_ref_str));
    assert!(CFFIAnalyzer::is_impl_as_ref_type(&TypeShape::reference(false, impl_bound(
        "AsRef",
        vec![TypeShape::simple("str")],
    ))));
    assert!(!CFFIAnalyzer::is_impl_as_ref_type(&impl_bound("ToString", vec![])));
    let inner = CFFIAnalyzer::extract_as_ref_generic(&as_ref_str).unwrap();
    assert!(CFFIAnalyzer::type_eq(inner, &TypeShape::simple("str")));

    let as_mut = impl_bound("AsMut", vec![TypeShape::Slice {
        elem: Box::new(TypeShape::simple("u8")),
    }]);
    assert!(CFFIAnalyzer::is_impl_as_mut_type(&as_mut));
    assert!(CFFIAnalyzer::extract_as_mut_generic(&as_mut).is_some());

    assert!(CFFIAnalyzer::is_impl_to_string(&impl_bound("ToString", vec![])));
    assert!(CFFIAnalyzer::is_impl_display(&impl_bound("Display", vec![])));
    assert!(CFFIAnalyzer::is_impl_trait_named(&impl_bound("ToString", vec![]), "ToString"));

    let into_vec = impl_bound("Into", vec![TypeShape::generic1("Vec", TypeShape::simple("u8"))]);
    assert!(CFFIAnalyzer::is_impl_trait_into_vec(&into_vec));
    let ev = CFFIAnalyzer::extract_vec_inner_type_from_impl_trait(&into_vec).unwrap();
    assert!(CFFIAnalyzer::type_eq(ev, &TypeShape::simple("u8")));
    assert!(!CFFIAnalyzer::into_vec_target_is_mut(&into_vec));
    let into_mut_vec = impl_bound("Into", vec![TypeShape::reference(true, TypeShape::generic1(
        "Vec",
        TypeShape::simple("u8"),
    ))]);
    assert!(CFFIAnalyzer::is_impl_trait_into_vec(&into_mut_vec));
    assert!(CFFIAnalyzer::into_vec_target_is_mut(&into_mut_vec));

    assert!(CFFIAnalyzer::is_impl_trait_with_target_type(
        &as_ref_str,
        "AsRef",
        "str",
    ));
    assert!(!CFFIAnalyzer::is_impl_trait_with_target_type(
        &as_ref_str,
        "AsRef",
        "String",
    ));
    assert!(CFFIAnalyzer::is_impl_trait_with_target_type_path(
        &into_vec,
        "Into",
        &TypeShape::generic1("Vec", TypeShape::simple("u8")),
    ));
}

#[test]
fn pascal_and_capitalized_snake_mangling() {
    assert_eq!(CFFIAnalyzer::to_pascal_case("hello_world"), "HelloWorld");
    assert_eq!(CFFIAnalyzer::to_pascal_case("a__b"), "AB");
    assert_eq!(CFFIAnalyzer::to_pascal_case("_x"), "X");
    assert_eq!(CFFIAnalyzer::to_pascal_case(""), "");
    assert_eq!(CFFIAnalyzer::to_capitalized_snake("hello_world"), "Hello_World");
    assert_eq!(CFFIAnalyzer::to_capitalized_snake("a__b"), "A_B");
    assert_eq!(CFFIAnalyzer::to_capitalized_snake("abc"), "Abc");
    // A character with no uppercase mapping passes through.
    assert_eq!(CFFIAnalyzer::to_pascal_case("おはよう_x"), "おはようX");
}

#[test]
fn rule_priority_picks_exactly_one_rule() {
    let cases: Vec<(TypeShape, RuleKind)> = vec![
        (TypeShape::generic1("Option", TypeShape::simple("i32")), RuleKind::OptionDefault),
        (impl_bound("AsRef", vec![TypeShape::simple("str")]), RuleKind::AsRefText),
        (impl_bound("AsRef", vec![TypeShape::simple("Foo")]), RuleKind::AsRefDirect),
        (
            impl_bound("AsMut", vec![TypeShape::Slice { elem: Box::new(TypeShape::simple("u8")) }]),
            RuleKind::AsMutSeq,
        ),
        (impl_bound("ToString", vec![]), RuleKind::Stringify),
        (impl_bound("Display", vec![]), RuleKind::Stringify),
        (
            impl_bound("Into", vec![TypeShape::generic1("Vec", TypeShape::simple("u8"))]),
            RuleKind::IntoVec,
        ),
        (
            TypeShape::Array { elem: Box::new(TypeShape::simple("i32")), len: "4".to_owned() },
            RuleKind::ArrayValue,
        ),
        (
            TypeShape::reference(true, TypeShape::Array {
                elem: Box::new(TypeShape::simple("i32")),
                len: "4".to_owned(),
            }),
            RuleKind::ArrayMut,
        ),
        (
            TypeShape::reference(false, TypeShape::Slice {
                elem: Box::new(TypeShape::simple("u8")),
            }),
            RuleKind::SliceRef,
        ),
        (
            TypeShape::reference(true, TypeShape::Slice {
                elem: Box::new(TypeShape::simple("u8")),
            }),
            RuleKind::SliceMut,
        ),
        (TypeShape::generic1("Vec", TypeShape::simple("u8")), RuleKind::VecValue),
        (
            TypeShape::reference(true, TypeShape::generic1("Vec", TypeShape::simple("u8"))),
            RuleKind::VecMut,
        ),
        (TypeShape::reference(false, TypeShape::simple("str")), RuleKind::TextConst),
        (TypeShape::simple("String"), RuleKind::TextConst),
        (TypeShape::reference(false, TypeShape::simple("String")), RuleKind::TextConst),
        (TypeShape::reference(true, TypeShape::simple("String")), RuleKind::TextMut),
        (TypeShape::simple("u64"), RuleKind::Passthrough),
    ];
    for (ty, expected) in cases {
        let p = DeclaredParameter::plain("x", ty);
        let plan = plan_parameter(&p, true).unwrap();
        assert_eq!(plan.rule, expected);
    }
}

#[test]
fn owned_temporary_rules_bind_holder_before_pointer() {
    let texts = vec![
        impl_bound("AsRef", vec![TypeShape::simple("str")]),
        impl_bound("ToString", vec![]),
        TypeShape::reference(false, TypeShape::simple("str")),
        TypeShape::reference(true, TypeShape::simple("String")),
    ];
    for ty in texts {
        let p = DeclaredParameter::plain("x", ty);
        let plan = plan_parameter(&p, true).unwrap();
        assert_eq!(plan.ownership, Ownership::OwnedTemporary);
        assert_eq!(plan.conv.len(), 2);
    }
}

#[test]
fn raw_parameter_is_pointer_or_scalar() {
    let p = DeclaredParameter::plain(
        "buf",
        TypeShape::reference(true, TypeShape::Slice { elem: Box::new(TypeShape::simple("u8")) }),
    );
    let plan = plan_parameter(&p, true).unwrap();
    match plan.raw {
        RawParam::MutPtr(t) => assert_eq!(t, "u8"),
        _ => panic!("a mutable slice must become a mutable element pointer"),
    }
    let q = DeclaredParameter::plain("n", TypeShape::simple("u64"));
    let qplan = plan_parameter(&q, true).unwrap();
    match qplan.raw {
        RawParam::Value(t) => assert_eq!(t, "u64"),
        _ => panic!("an unrecognized scalar must pass through unchanged"),
    }
}

#[test]
fn attribute_lookups_are_first_match_wins() {
    let attrs = vec![
        Annotation::with_str("library_name", "First"),
        Annotation::with_str("library_name", "Second"),
        Annotation::flag("as_result"),
        Annotation::with_ident("arg_convert", "default"),
    ];
    assert_eq!(
        CFFIAttributeAnalyzer::extract_library_name_attr(&attrs).unwrap(),
        "First"
    );
    assert!(CFFIAttributeAnalyzer::is_as_result_attr(&attrs));
    assert!(CFFIAttributeAnalyzer::has_path_attr(&attrs, "arg_convert"));
    assert!(!CFFIAttributeAnalyzer::has_path_attr(&attrs, "link_type"));
    assert_eq!(
        CFFIAttributeAnalyzer::extract_arg_convert_attr(&attrs).unwrap(),
        "default"
    );
    assert!(CFFIAttributeAnalyzer::extract_link_type_attr(&attrs).is_none());
    assert!(CFFIAttributeAnalyzer::extract_path_attr(&attrs, "as_result").is_some());
    assert!(!CFFIAnalyzer::is_not_result_attribute(&attrs));
}

#[test]
fn bare_arg_convert_flag_stands_for_its_own_name() {
    let attrs = vec![Annotation::flag("arg_convert")];
    assert_eq!(
        CFFIAttributeAnalyzer::extract_arg_convert_attr(&attrs).unwrap(),
        "arg_convert"
    );
}

#[test]
fn option_default_payload_decoding() {
    let null_attrs = vec![Annotation::with_str("option_default", "null_mut")];
    assert_eq!(
        CFFIAttributeAnalyzer::extract_option_default_expr_attr(&null_attrs)
            .unwrap()
            .unwrap(),
        "std::ptr::null_mut()"
    );
    let verbatim = vec![Annotation::with_str("option_default", "1 + 2")];
    assert_eq!(
        CFFIAttributeAnalyzer::extract_option_default_expr_attr(&verbatim)
            .unwrap()
            .unwrap(),
        "1 + 2"
    );
    let broken = vec![Annotation::with_str("option_default", "1 + (")];
    match CFFIAttributeAnalyzer::extract_option_default_expr_attr(&broken) {
        Err(GenError::InvalidExpression(t)) => assert_eq!(t, "1 + ("),
        _ => panic!("an unbalanced payload must be refused"),
    }
    let absent: Vec<Annotation> = Vec::new();
    assert!(CFFIAttributeAnalyzer::extract_option_default_expr_attr(&absent)
        .unwrap()
        .is_none());
}

#[test]
fn dxlib_error_messages() {
    assert_eq!(DxLibError::InitializeError.message(), "Failed to DxLib_Init()");
    assert_eq!(DxLibError::FinalizeError.message(), "Failed to DxLib_End()");
    assert_eq!(
        DxLibError::Other("Error in WaitKey".to_owned()).message(),
        "Error in WaitKey"
    );
}

#[test]
fn function_level_arg_convert_overrides_scope() {
    let config = vec![
        Annotation::with_str("library_name", "Lib"),
        Annotation::with_ident("arg_convert", "none"),
    ];
    let fns = vec![DeclaredFunction {
        name: "TestFunc2".to_owned(),
        attrs: vec![Annotation::with_ident("arg_convert", "default")],
        params: vec![DeclaredParameter::plain(
            "s",
            TypeShape::reference(false, TypeShape::simple("str")),
        )],
        ret: Some(TypeShape::simple("i32")),
    }];
    let out = generate_cffi(&config, &fns).unwrap();
    // The function-level mode turns conversion on though the scope left it
    // off.
    assert!(out.contains("fn TestFunc2(s: *const c_char) -> i32;"));
    assert!(out.contains("__s_holder"));
}

#[test]
fn general_error_messages() {
    assert_eq!(CFFIGeneralError::NullAssertError.message(), "The value is null.");
    assert_eq!(
        CFFIGeneralError::Other("no device".to_owned()).message(),
        "no device"
    );
}

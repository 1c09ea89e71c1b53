use egui_inspect::engine::{add_trait_bounds, derive_egui_inspect};
use egui_inspect::model::{
    AttrEntry, AttrValue, Data, DeriveInput, Diag, Fields, GenericParam, Generics, NamedField,
    TypeParam, TypeSyntax,
};

fn no_generics() -> Generics {
    Generics { params: vec![], where_clause: None }
}

fn plain(name: &str) -> TypeSyntax {
    TypeSyntax::Plain(name.to_string())
}

fn field(ident: &str, ty: TypeSyntax, attrs: Vec<AttrEntry>) -> NamedField {
    NamedField { ident: ident.to_string(), ty, attrs }
}

fn flag(key: &str) -> AttrEntry {
    AttrEntry { key: key.to_string(), value: AttrValue::Flag }
}

#[test]
fn generated_impl_for_a_plain_struct() {
    let input = DeriveInput {
        ident: "S".to_string(),
        generics: no_generics(),
        data: Data::Struct(Fields::Named(vec![field("a", plain("u32"), vec![])])),
    };
    let code = derive_egui_inspect(&input).unwrap();
    let expected = "impl egui_inspect::EguiInspect for S {\n\
fn inspect(&self, label: &str, ui: &mut egui::Ui) {\n\
ui.strong(label);\n\
{ egui_inspect::EguiInspect::inspect(&self.a, &\"a\", ui); }\n\
}\n\
fn inspect_mut(&mut self, label: &str, ui: &mut egui::Ui) {\n\
ui.strong(label);\n\
{ egui_inspect::InspectNumber::inspect_with_slider(&mut self.a, &\"a\", ui, 0.0, 100.0); }\n\
}\n\
}\n";
    assert_eq!(code, expected);
}

#[test]
fn generated_impl_for_a_tuple_struct() {
    let input = DeriveInput {
        ident: "Salut".to_string(),
        generics: no_generics(),
        data: Data::Struct(Fields::Unnamed(vec![plain("i32"), plain("f32")])),
    };
    let code = derive_egui_inspect(&input).unwrap();
    let expected = "impl egui_inspect::EguiInspect for Salut {\n\
fn inspect(&self, label: &str, ui: &mut egui::Ui) {\n\
ui.strong(label);\n\
{ egui_inspect::EguiInspect::inspect(&self.0, &\"Field 0\", ui); }\n\
{ egui_inspect::EguiInspect::inspect(&self.1, &\"Field 1\", ui); }\n\
}\n\
fn inspect_mut(&mut self, label: &str, ui: &mut egui::Ui) {\n\
ui.strong(label);\n\
{ egui_inspect::EguiInspect::inspect_mut(&mut self.0, &\"Field 0\", ui); }\n\
{ egui_inspect::EguiInspect::inspect_mut(&mut self.1, &\"Field 1\", ui); }\n\
}\n\
}\n";
    assert_eq!(code, expected);
}

#[test]
fn generic_parameters_get_the_contract_bound() {
    let input = DeriveInput {
        ident: "Wrapper".to_string(),
        generics: Generics {
            params: vec![
                GenericParam::Type(TypeParam { ident: "T".to_string(), bounds: vec![] }),
                GenericParam::Type(TypeParam {
                    ident: "U".to_string(),
                    bounds: vec!["Clone".to_string()],
                }),
            ],
            where_clause: None,
        },
        data: Data::Struct(Fields::Named(vec![field("inner", plain("T"), vec![])])),
    };
    let code = derive_egui_inspect(&input).unwrap();
    assert!(code.starts_with(
        "impl<T: egui_inspect::EguiInspect, U: Clone + egui_inspect::EguiInspect> \
         egui_inspect::EguiInspect for Wrapper<T, U> {\n"
    ));
}

#[test]
fn add_trait_bounds_appends_to_every_type_parameter() {
    let generics = Generics {
        params: vec![
            GenericParam::Lifetime { ident: "'a".to_string(), bounds: vec![] },
            GenericParam::Type(TypeParam { ident: "T".to_string(), bounds: vec![] }),
            GenericParam::Type(TypeParam {
                ident: "U".to_string(),
                bounds: vec!["Clone".to_string()],
            }),
            GenericParam::Const { ident: "N".to_string(), ty: "usize".to_string() },
        ],
        where_clause: Some("T: Default".to_string()),
    };
    let bounded = add_trait_bounds(&generics);
    assert_eq!(
        bounded,
        Generics {
            params: vec![
                GenericParam::Lifetime { ident: "'a".to_string(), bounds: vec![] },
                GenericParam::Type(TypeParam {
                    ident: "T".to_string(),
                    bounds: vec!["egui_inspect::EguiInspect".to_string()]
                }),
                GenericParam::Type(TypeParam {
                    ident: "U".to_string(),
                    bounds: vec!["Clone".to_string(), "egui_inspect::EguiInspect".to_string()]
                }),
                GenericParam::Const { ident: "N".to_string(), ty: "usize".to_string() },
            ],
            where_clause: Some("T: Default".to_string()),
        }
    );
}

#[test]
fn lifetimes_consts_and_where_clause_are_kept() {
    let input = DeriveInput {
        ident: "Holder".to_string(),
        generics: Generics {
            params: vec![
                GenericParam::Lifetime { ident: "'a".to_string(), bounds: vec![] },
                GenericParam::Type(TypeParam { ident: "T".to_string(), bounds: vec![] }),
                GenericParam::Const { ident: "N".to_string(), ty: "usize".to_string() },
            ],
            where_clause: Some("T: Clone".to_string()),
        },
        data: Data::Struct(Fields::Unnamed(vec![plain("u32")])),
    };
    let code = derive_egui_inspect(&input).unwrap();
    assert!(code.starts_with(
        "impl<'a, T: egui_inspect::EguiInspect, const N: usize> egui_inspect::EguiInspect for Holder<'a, T, N> where T: Clone {\n"
    ));
    assert!(syn::parse_str::<syn::ItemImpl>(&code).is_ok(), "must parse: {code}");
}

#[test]
fn quotes_in_a_display_name_are_escaped() {
    let input = DeriveInput {
        ident: "S".to_string(),
        generics: no_generics(),
        data: Data::Struct(Fields::Named(vec![field(
            "a",
            plain("u32"),
            vec![AttrEntry {
                key: "name".to_string(),
                value: AttrValue::StrLit("say \"hi\" \\ok".to_string()),
            }],
        )])),
    };
    let code = derive_egui_inspect(&input).unwrap();
    assert!(code.contains("&\"say \\\"hi\\\" \\\\ok\""), "escaped splice: {code}");
    assert!(syn::parse_str::<syn::ItemImpl>(&code).is_ok(), "must parse: {code}");
}

#[test]
fn generated_code_parses_as_an_impl_item() {
    let input = DeriveInput {
        ident: "MyApp".to_string(),
        generics: no_generics(),
        data: Data::Struct(Fields::Named(vec![
            field("string", plain("String"), vec![flag("no_edit")]),
            field("code", plain("String"), vec![flag("multiline")]),
            field(
                "unsigned32",
                plain("u32"),
                vec![
                    AttrEntry {
                        key: "min".to_string(),
                        value: AttrValue::NumLit("12.0".to_string()),
                    },
                    AttrEntry {
                        key: "max".to_string(),
                        value: AttrValue::NumLit("53.0".to_string()),
                    },
                ],
            ),
            field("skipped", plain("bool"), vec![flag("hide")]),
            field(
                "boolean",
                plain("bool"),
                vec![AttrEntry {
                    key: "custom_func_mut".to_string(),
                    value: AttrValue::StrLit("crate::custom_bool_inspect".to_string()),
                }],
            ),
            field("raw_string", TypeSyntax::Reference(Box::new(plain("str"))), vec![flag("no_edit")]),
        ])),
    };
    let code = derive_egui_inspect(&input).unwrap();
    let parsed = syn::parse_str::<syn::ItemImpl>(&code);
    assert!(parsed.is_ok(), "generated code must parse: {code}");
    assert!(code.contains(
        "egui_inspect::InspectNumber::inspect_with_slider(&mut self.unsigned32, &\"unsigned32\", ui, 12.0, 53.0)"
    ));
    assert!(!code.contains("skipped"));
}

#[test]
fn hidden_fields_never_appear_in_the_output() {
    let input = DeriveInput {
        ident: "S".to_string(),
        generics: no_generics(),
        data: Data::Struct(Fields::Named(vec![
            field("shown", plain("u32"), vec![]),
            field("secret_field", plain("String"), vec![flag("hide")]),
        ])),
    };
    let code = derive_egui_inspect(&input).unwrap();
    assert!(!code.contains("secret_field"));
    assert!(code.contains("shown"));
}

#[test]
fn derive_rejects_enums_with_a_diagnostic() {
    let input = DeriveInput {
        ident: "Choice".to_string(),
        generics: no_generics(),
        data: Data::Enum,
    };
    let err = derive_egui_inspect(&input).unwrap_err();
    assert_eq!(err, Diag::EnumOrUnionUnsupported);
    assert_eq!(err.message(), "enums and unions are not supported");
}

#[test]
fn derive_reports_the_first_field_diagnostic() {
    let input = DeriveInput {
        ident: "S".to_string(),
        generics: no_generics(),
        data: Data::Struct(Fields::Named(vec![field("a", plain("u32"), vec![flag("wat")])])),
    };
    let err = derive_egui_inspect(&input).unwrap_err();
    assert_eq!(err, Diag::UnknownAttribute { field: "a".to_string(), key: "wat".to_string() });
}

use egui_inspect::directive::{Directive, FieldTarget};
use egui_inspect::engine::inspect_struct;
use egui_inspect::model::{AttrEntry, AttrValue, Data, Diag, Fields, NamedField, TypeSyntax};

fn field(ident: &str, ty: TypeSyntax, attrs: Vec<AttrEntry>) -> NamedField {
    NamedField { ident: ident.to_string(), ty, attrs }
}

fn flag(key: &str) -> AttrEntry {
    AttrEntry { key: key.to_string(), value: AttrValue::Flag }
}

fn num(key: &str, text: &str) -> AttrEntry {
    AttrEntry { key: key.to_string(), value: AttrValue::NumLit(text.to_string()) }
}

fn strlit(key: &str, text: &str) -> AttrEntry {
    AttrEntry { key: key.to_string(), value: AttrValue::StrLit(text.to_string()) }
}

fn plain(name: &str) -> TypeSyntax {
    TypeSyntax::Plain(name.to_string())
}

fn named_struct(fields: Vec<NamedField>) -> Data {
    Data::Struct(Fields::Named(fields))
}

#[test]
fn hidden_field_emits_nothing_in_both_modes() {
    let data = named_struct(vec![field("skipped", plain("bool"), vec![flag("hide")])]);
    let display = inspect_struct(&data, false).unwrap();
    let edit = inspect_struct(&data, true).unwrap();
    assert_eq!(display, vec![Directive::StrongLabel, Directive::Empty]);
    assert_eq!(edit, vec![Directive::StrongLabel, Directive::Empty]);
}

#[test]
fn numeric_no_edit_is_empty_in_edit_mode_only() {
    let data = named_struct(vec![field("unsigned32", plain("u32"), vec![flag("no_edit")])]);
    let edit = inspect_struct(&data, true).unwrap();
    assert_eq!(edit, vec![Directive::StrongLabel, Directive::Empty]);

    let display = inspect_struct(&data, false).unwrap();
    assert_eq!(
        display,
        vec![
            Directive::StrongLabel,
            Directive::InspectCall {
                target: FieldTarget::Named("unsigned32".to_string()),
                name: "unsigned32".to_string()
            }
        ]
    );
}

#[test]
fn custom_edit_handler_beats_type_dispatch() {
    let data = named_struct(vec![field(
        "boolean",
        plain("bool"),
        vec![strlit("custom_func_mut", "crate::custom_bool_inspect")],
    )]);
    let edit = inspect_struct(&data, true).unwrap();
    assert_eq!(
        edit,
        vec![
            Directive::StrongLabel,
            Directive::CustomMut {
                func: "crate::custom_bool_inspect".to_string(),
                field: "boolean".to_string(),
                name: "boolean".to_string()
            }
        ]
    );
    // the display path is untouched by the edit handler
    let display = inspect_struct(&data, false).unwrap();
    assert_eq!(
        display,
        vec![
            Directive::StrongLabel,
            Directive::InspectCall {
                target: FieldTarget::Named("boolean".to_string()),
                name: "boolean".to_string()
            }
        ]
    );
}

#[test]
fn custom_display_handler_applies_in_display_mode() {
    let data = named_struct(vec![field(
        "speed",
        plain("f32"),
        vec![strlit("custom_func", "show_speed"), flag("no_edit")],
    )]);
    let display = inspect_struct(&data, false).unwrap();
    assert_eq!(
        display,
        vec![
            Directive::StrongLabel,
            Directive::CustomRef {
                func: "show_speed".to_string(),
                field: "speed".to_string(),
                name: "speed".to_string()
            }
        ]
    );
}

#[test]
fn slider_carries_exactly_the_configured_interval() {
    let data = named_struct(vec![field(
        "unsigned32",
        plain("u32"),
        vec![num("min", "12.0"), num("max", "53.0")],
    )]);
    let edit = inspect_struct(&data, true).unwrap();
    assert_eq!(
        edit,
        vec![
            Directive::StrongLabel,
            Directive::SliderCall {
                field: "unsigned32".to_string(),
                name: "unsigned32".to_string(),
                min: "12.0".to_string(),
                max: "53.0".to_string()
            }
        ]
    );
}

#[test]
fn pointer_sized_integers_take_the_numeric_rules() {
    let data = named_struct(vec![field(
        "count",
        plain("usize"),
        vec![num("min", "1.0"), num("max", "9.0")],
    )]);
    let edit = inspect_struct(&data, true).unwrap();
    assert_eq!(
        edit,
        vec![
            Directive::StrongLabel,
            Directive::SliderCall {
                field: "count".to_string(),
                name: "count".to_string(),
                min: "1.0".to_string(),
                max: "9.0".to_string()
            }
        ]
    );
    let no_edit_data = named_struct(vec![field("count", plain("isize"), vec![flag("no_edit")])]);
    assert_eq!(
        inspect_struct(&no_edit_data, true).unwrap(),
        vec![Directive::StrongLabel, Directive::Empty]
    );
}

#[test]
fn slider_off_gives_unbounded_input_whatever_the_interval() {
    let data = named_struct(vec![field(
        "float64",
        plain("f64"),
        vec![
            AttrEntry { key: "slider".to_string(), value: AttrValue::BoolLit(false) },
            num("min", "-43.0"),
            num("max", "125.0"),
        ],
    )]);
    let edit = inspect_struct(&data, true).unwrap();
    assert_eq!(
        edit,
        vec![
            Directive::StrongLabel,
            Directive::DragCall { field: "float64".to_string(), name: "float64".to_string() }
        ]
    );
}

#[test]
fn string_edit_modes() {
    let data = named_struct(vec![
        field("code", plain("String"), vec![flag("multiline")]),
        field("line", plain("String"), vec![]),
        field("frozen", plain("String"), vec![flag("no_edit")]),
    ]);
    let edit = inspect_struct(&data, true).unwrap();
    assert_eq!(
        edit,
        vec![
            Directive::StrongLabel,
            Directive::MultilineCall { field: "code".to_string(), name: "code".to_string() },
            Directive::SinglelineCall { field: "line".to_string(), name: "line".to_string() },
            Directive::InspectCall {
                target: FieldTarget::Named("frozen".to_string()),
                name: "frozen".to_string()
            },
        ]
    );
}

#[test]
fn name_override_labels_the_widgets() {
    let data = named_struct(vec![field(
        "ugly_internal_field_name",
        plain("u16"),
        vec![strlit("name", "A proper field name")],
    )]);
    let edit = inspect_struct(&data, true).unwrap();
    assert_eq!(
        edit,
        vec![
            Directive::StrongLabel,
            Directive::SliderCall {
                field: "ugly_internal_field_name".to_string(),
                name: "A proper field name".to_string(),
                min: "0.0".to_string(),
                max: "100.0".to_string()
            }
        ]
    );
}

#[test]
fn other_types_fall_back_to_the_generic_contract() {
    let data = named_struct(vec![
        field("vector_struct", plain("Vector"), vec![]),
        field("strings", TypeSyntax::Qualified, vec![]),
        field("raw_string", TypeSyntax::Reference(Box::new(plain("str"))), vec![]),
    ]);
    let edit = inspect_struct(&data, true).unwrap();
    assert_eq!(
        edit,
        vec![
            Directive::StrongLabel,
            Directive::InspectMutCall {
                target: FieldTarget::Named("vector_struct".to_string()),
                name: "vector_struct".to_string()
            },
            Directive::InspectMutCall {
                target: FieldTarget::Named("strings".to_string()),
                name: "strings".to_string()
            },
            Directive::InspectMutCall {
                target: FieldTarget::Named("raw_string".to_string()),
                name: "raw_string".to_string()
            },
        ]
    );
}

#[test]
fn tuple_fields_are_labeled_positionally() {
    let data = Data::Struct(Fields::Unnamed(vec![plain("i32"), plain("f32")]));
    let display = inspect_struct(&data, false).unwrap();
    assert_eq!(
        display,
        vec![
            Directive::StrongLabel,
            Directive::InspectCall { target: FieldTarget::Index(0), name: "Field 0".to_string() },
            Directive::InspectCall { target: FieldTarget::Index(1), name: "Field 1".to_string() },
        ]
    );
    let edit = inspect_struct(&data, true).unwrap();
    assert_eq!(
        edit,
        vec![
            Directive::StrongLabel,
            Directive::InspectMutCall {
                target: FieldTarget::Index(0),
                name: "Field 0".to_string()
            },
            Directive::InspectMutCall {
                target: FieldTarget::Index(1),
                name: "Field 1".to_string()
            },
        ]
    );
}

#[test]
fn enums_unions_and_unit_structs_are_rejected() {
    assert_eq!(inspect_struct(&Data::Enum, false).unwrap_err(), Diag::EnumOrUnionUnsupported);
    assert_eq!(inspect_struct(&Data::Enum, true).unwrap_err(), Diag::EnumOrUnionUnsupported);
    assert_eq!(inspect_struct(&Data::Union, true).unwrap_err(), Diag::EnumOrUnionUnsupported);
    assert_eq!(
        inspect_struct(&Data::Struct(Fields::Unit), false).unwrap_err(),
        Diag::UnitUnsupported
    );
    assert_eq!(
        Diag::EnumOrUnionUnsupported.message(),
        "enums and unions are not supported"
    );
    assert_eq!(Diag::UnitUnsupported.message(), "unit structs cannot be inspected");
}

#[test]
fn field_diagnostics_surface_through_the_engine() {
    let data = named_struct(vec![field("speed", plain("u32"), vec![flag("speedy")])]);
    let err = inspect_struct(&data, false).unwrap_err();
    assert_eq!(
        err,
        Diag::UnknownAttribute { field: "speed".to_string(), key: "speedy".to_string() }
    );
}
